//! User invites: creating them, looking them up, and accepting one with
//! a password or with an attested security key.
//!
//! Accepting an invite creates the user together with its local
//! credential and logs the new user's session in directly; every
//! precondition is checked before the first write, mirroring the single
//! transaction the whole acceptance runs in.

use vstd::prelude::*;

verus! {

use crate::common::ApiError;
use crate::common::FormResult;
use crate::common::List;
use crate::crypto::hash_pw;
use crate::crypto::hash_usable;
use crate::crypto::pw_matches;
use crate::models::CreateUserInviteError;
use crate::models::LocalUser;
use crate::models::MaybeAttestedPasskey;
use crate::models::Store;
use crate::models::User;
use crate::models::UserInvite;
use crate::models::UserLanguage;
use crate::models::UserPermissions;
use crate::models::WebAuthnKey;
use crate::auth::set_logged_in;
use crate::session::CeremonyState;
use crate::session::ClientSession;
use crate::strings::CheckedString;
use crate::strings::SecureString;
use crate::users::WebAuthnRegisterOutcome;
use crate::users::WebAuthnRegisterResult;

/// An outstanding user invite, as shown to clients.
#[derive(Debug, Clone, PartialEq, Eq)]
pub struct SimpleUserInvite {
    /// The primary key of the invite.
    pub uuid: u128,
    /// The mail of the invited user.
    pub mail: String,
    /// The display name of the invited user.
    pub display_name: String,
    /// The preferred language of the invited user.
    pub preferred_lang: UserLanguage,
    /// The permissions the new user will hold.
    pub permissions: UserPermissions,
    /// Until when the invite is valid, in seconds.
    pub expires_at: u64,
    /// When the invite was created, in seconds.
    pub created_at: u64,
}

/// The response containing an invitation's details.
#[derive(Debug, Clone, PartialEq, Eq)]
pub enum GetUserInviteResponse {
    /// The invite exists and has not expired.
    Valid {
        /// The invite's details.
        invite: SimpleUserInvite,
    },
    /// No invite exists under the identifier.
    NotFound,
    /// The invite exists but has expired.
    Expired,
}

/// The request to invite a new local user.
#[derive(Debug, Clone)]
pub struct CreateUserInviteRequest {
    /// The mail of the new user.
    pub mail: CheckedString<1, 255>,
    /// The display name of the new user.
    pub display_name: CheckedString<1, 255>,
    /// The preferred language of the new user.
    pub preferred_lang: UserLanguage,
    /// The permissions of the new user.
    pub permissions: UserPermissions,
}

/// Why the mail of an invite-user request was rejected.
#[derive(Debug, Clone, Copy, PartialEq, Eq, Structural)]
pub enum CreateUserInviteMailError {
    AlreadyUser,
    AlreadyInvited,
}

/// The errors of the invite-user request.
#[derive(Debug, Clone, Copy, Default, PartialEq, Eq, Structural)]
pub struct CreateUserInviteErrors {
    /// The mail is not unique.
    pub mail: Option<CreateUserInviteMailError>,
}

/// The request to accept an invitation by choosing a password.
#[derive(Clone)]
pub struct AcceptWithPwRequest {
    /// The password that should be set.
    pub password: SecureString,
}

/// The request to accept an invitation by registering a security key.
#[derive(Debug, Clone)]
pub struct AcceptWithWARequest {
    /// A user defined label to identify the login key.
    pub label: CheckedString<1, 255>,
}

/// The reduced representation of a stored invite.
pub open spec fn spec_simple_user_invite(invite: UserInvite) -> SimpleUserInvite {
    SimpleUserInvite {
        uuid: invite.uuid,
        mail: invite.email,
        display_name: invite.display_name,
        preferred_lang: invite.preferred_lang,
        permissions: invite.permissions,
        expires_at: invite.expires_at,
        created_at: invite.created_at,
    }
}

/// Convert a stored invite into its client representation.
pub fn new_simple_user_invite(invite: &UserInvite) -> (r: SimpleUserInvite)
    ensures
        r == spec_simple_user_invite(*invite),
{
    SimpleUserInvite {
        uuid: invite.uuid,
        mail: invite.email.clone(),
        display_name: invite.display_name.clone(),
        preferred_lang: invite.preferred_lang,
        permissions: invite.permissions,
        expires_at: invite.expires_at,
        created_at: invite.created_at,
    }
}

/// Look an invitation up to display it before accepting.
///
/// Reports the invite's details while it is valid at `now`; an invite
/// whose expiry lies before `now` is expired.
pub fn get_user_invite(db: &Store, uuid: u128, now: u64) -> (r: GetUserInviteResponse)
    requires
        db.wf(),
    ensures
        r == match db.invite_by_uuid(uuid) {
            None => GetUserInviteResponse::NotFound,
            Some(invite) => if invite.expires_at < now {
                GetUserInviteResponse::Expired
            } else {
                GetUserInviteResponse::Valid { invite: spec_simple_user_invite(invite) }
            },
        },
{
    match db.find_invite_by_uuid(uuid) {
        None => GetUserInviteResponse::NotFound,
        Some(i) => {
            if db.user_invites[i].expires_at < now {
                GetUserInviteResponse::Expired
            } else {
                GetUserInviteResponse::Valid { invite: new_simple_user_invite(&db.user_invites[i]) }
            }
        },
    }
}

/// Invite a new local user.
///
/// A mail already taken by a user or by another open invite is a form
/// error; a collision of the freshly drawn invite identifier surfaces
/// as an internal error. The created invite is valid for one day from
/// `now`.
pub fn create_user_invite(
    db: &mut Store,
    request: CreateUserInviteRequest,
    new_uuid: u128,
    now: u64,
) -> (r: Result<FormResult<SimpleUserInvite, CreateUserInviteErrors>, ApiError>)
    requires
        old(db).wf(),
        now <= u64::MAX - 86400,
    ensures
        final(db).wf(),
        if old(db).user_by_mail(request.mail@) is Some {
            &&& r == Ok::<_, ApiError>(
                FormResult::<SimpleUserInvite, CreateUserInviteErrors>::Invalid {
                    error: CreateUserInviteErrors {
                        mail: Some(CreateUserInviteMailError::AlreadyUser),
                    },
                },
            )
            &&& *final(db) == *old(db)
        } else if old(db).invite_by_email(request.mail@) is Some {
            &&& r == Ok::<_, ApiError>(
                FormResult::<SimpleUserInvite, CreateUserInviteErrors>::Invalid {
                    error: CreateUserInviteErrors {
                        mail: Some(CreateUserInviteMailError::AlreadyInvited),
                    },
                },
            )
            &&& *final(db) == *old(db)
        } else if old(db).invite_by_uuid(new_uuid) is Some {
            &&& r == Err::<FormResult<SimpleUserInvite, CreateUserInviteErrors>, _>(
                ApiError::InternalServerError,
            )
            &&& *final(db) == *old(db)
        } else {
            &&& r matches Ok(FormResult::Valid { value }) && value.uuid == new_uuid && value.mail@
                == request.mail@ && value.display_name@ == request.display_name@
                && value.preferred_lang == request.preferred_lang && value.permissions
                == request.permissions && value.expires_at == now + 86400 && value.created_at
                == now
            &&& exists|invite: UserInvite|
                final(db).user_invites@ == old(db).user_invites@.push(invite) && invite.uuid
                    == new_uuid && invite.email@ == request.mail@
            &&& final(db).users@ == old(db).users@
            &&& final(db).oidc_users@ == old(db).oidc_users@
            &&& final(db).local_users@ == old(db).local_users@
            &&& final(db).totp_keys@ == old(db).totp_keys@
            &&& final(db).webauthn_keys@ == old(db).webauthn_keys@
            &&& final(db).sessions@ == old(db).sessions@
        },
{
    match UserInvite::create(
        db,
        request.mail,
        request.display_name,
        request.preferred_lang,
        request.permissions,
        new_uuid,
        now,
    ) {
        Ok(invite) => Ok(FormResult::ok(new_simple_user_invite(&invite))),
        Err(CreateUserInviteError::AlreadyUser) => Ok(
            FormResult::err(
                CreateUserInviteErrors { mail: Some(CreateUserInviteMailError::AlreadyUser) },
            ),
        ),
        Err(CreateUserInviteError::AlreadyInvited) => Ok(
            FormResult::err(
                CreateUserInviteErrors { mail: Some(CreateUserInviteMailError::AlreadyInvited) },
            ),
        ),
        Err(CreateUserInviteError::UuidOccupied) => Err(ApiError::InternalServerError),
    }
}

/// Retrieve all outstanding invites, expired or not, in storage order.
pub fn get_all_user_invites(db: &Store) -> (r: List<SimpleUserInvite>)
    ensures
        r.list@.len() == db.user_invites@.len(),
        forall|k: int|
            0 <= k < db.user_invites@.len() ==> r.list@[k] == spec_simple_user_invite(
                #[trigger] db.user_invites@[k],
            ),
{
    let mut list: Vec<SimpleUserInvite> = Vec::new();
    let n = db.user_invites.len();
    for i in 0..n
        invariant
            n == db.user_invites@.len(),
            list@.len() == i,
            forall|k: int|
                0 <= k < i ==> list@[k] == spec_simple_user_invite(#[trigger] db.user_invites@[k]),
    {
        list.push(new_simple_user_invite(&db.user_invites[i]));
    }
    List { list }
}

/// Delete an outstanding invite; a no-op when none exists under the
/// identifier.
pub fn delete_user_invite(db: &mut Store, uuid: u128) -> (r: Result<(), ApiError>)
    requires
        old(db).wf(),
    ensures
        final(db).wf(),
        r == Ok::<(), ApiError>(()),
        final(db).users@ == old(db).users@,
        final(db).oidc_users@ == old(db).oidc_users@,
        final(db).local_users@ == old(db).local_users@,
        final(db).totp_keys@ == old(db).totp_keys@,
        final(db).webauthn_keys@ == old(db).webauthn_keys@,
        final(db).sessions@ == old(db).sessions@,
        final(db).invite_by_uuid(uuid) is None,
        forall|k: int|
            0 <= k < final(db).user_invites@.len() ==> old(db).user_invites@.contains(
                #[trigger] final(db).user_invites@[k],
            ) && final(db).user_invites@[k].uuid != uuid,
        forall|j: int|
            0 <= j < old(db).user_invites@.len() && old(db).user_invites@[j].uuid != uuid
                ==> final(db).user_invites@.contains(#[trigger] old(db).user_invites@[j]),
    {
    match db.find_invite_by_uuid(uuid) {
        None => (),
        Some(i) => {
            db.user_invites.remove(i);
            proof {
                let olds = old(db).user_invites@;
                let news = db.user_invites@;
                assert forall|k: int| 0 <= k < news.len() implies olds.contains(#[trigger] news[k])
                    && news[k].uuid != uuid by {
                    if k < i {
                        assert(news[k] == olds[k]);
                        if news[k].uuid == uuid {
                            old(db).lemma_invite_uuid_unique(k, i as int);
                        }
                    } else {
                        assert(news[k] == olds[k + 1]);
                        if news[k].uuid == uuid {
                            old(db).lemma_invite_uuid_unique(k + 1, i as int);
                        }
                    }
                }
                assert forall|j: int|
                    0 <= j < olds.len() && olds[j].uuid != uuid implies news.contains(
                    #[trigger] olds[j],
                ) by {
                    if j < i {
                        assert(news[j] == olds[j]);
                    } else if j > i {
                        assert(news[j - 1] == olds[j]);
                    }
                }
                assert forall|a: int, b: int| 0 <= a < b < news.len() implies news[a].uuid
                    != news[b].uuid && news[a].email@ != news[b].email@ by {
                    if b < i {
                    } else if a < i {
                        assert(news[a] == olds[a] && news[b] == olds[b + 1]);
                    } else {
                        assert(news[a] == olds[a + 1] && news[b] == olds[b + 1]);
                    }
                }
                assert(db.wf());
                if exists|w: int| 0 <= w < news.len() && news[w].uuid == uuid {
                    let w = choose|w: int| 0 <= w < news.len() && news[w].uuid == uuid;
                    assert(news[w].uuid != uuid);
                }
            }
        },
    }
    Ok(())
}

/// Everything that must hold of the store before an invite under
/// `invite_uuid` can be accepted into a user under `new_user_uuid` with
/// a local credential row under `new_local_uuid`, given the invite and
/// the session's identifier.
pub open spec fn acceptance_possible(
    db: Store,
    invite: UserInvite,
    session_id: u128,
    new_user_uuid: u128,
    new_local_uuid: u128,
) -> bool {
    &&& 1 <= invite.email@.len() <= 255
    &&& 1 <= invite.display_name@.len() <= 255
    &&& db.user_by_mail(invite.email@) is None
    &&& db.user_by_uuid(new_user_uuid) is None
    &&& db.local_by_uuid(new_local_uuid) is None
    &&& db.local_by_user(new_user_uuid) is None
    &&& db.record_by_id(session_id) is Some
}

/// The store `b` is `a` after accepting `invite`: the invite is gone, a
/// user with the invite's data exists under `new_user_uuid`, a local
/// credential row for it under `new_local_uuid`, and the session record
/// under `session_id` points at the new user. Keys and federated rows
/// are untouched.
pub open spec fn acceptance_applied(
    a: Store,
    b: Store,
    invite: UserInvite,
    session_id: u128,
    new_user_uuid: u128,
    new_local_uuid: u128,
) -> bool {
    &&& forall|k: int|
        0 <= k < b.user_invites@.len() ==> a.user_invites@.contains(#[trigger] b.user_invites@[k])
            && b.user_invites@[k].uuid != invite.uuid
    &&& forall|j: int|
        0 <= j < a.user_invites@.len() && a.user_invites@[j].uuid != invite.uuid
            ==> b.user_invites@.contains(#[trigger] a.user_invites@[j])
    &&& exists|u: User|
        b.users@ == a.users@.push(u) && u.uuid == new_user_uuid && u.mail@ == invite.email@
            && u.display_name@ == invite.display_name@ && u.preferred_lang
            == invite.preferred_lang && u.role == invite.permissions.spec_role()
    &&& exists|l: LocalUser|
        b.local_users@ == a.local_users@.push(l) && l.uuid == new_local_uuid && l.user
            == new_user_uuid
    &&& b.oidc_users@ == a.oidc_users@
    &&& b.totp_keys@ == a.totp_keys@
    &&& crate::auth::record_points_at(a, b, session_id, new_user_uuid)
}

/// Accept an invitation with an already hashed password.
///
/// The pure core of [`accept_with_password`]: the caller has hashed the
/// chosen password, and this function performs the checked, all-or-
/// nothing acceptance. A missing or expired invite is a bad request;
/// an inconsistency — an invite carrying an unusable mail or name, an
/// occupied mail, a colliding identifier, a missing session record —
/// surfaces as an internal error with nothing changed. Otherwise the
/// acceptance is applied in full and the session is logged in as the
/// new user.
pub fn accept_invite_hashed(
    db: &mut Store,
    session: &mut ClientSession,
    invite_uuid: u128,
    hashed: String,
    new_user_uuid: u128,
    new_local_uuid: u128,
    now: u64,
) -> (r: Result<(), ApiError>)
    requires
        old(db).wf(),
    ensures
        final(db).wf(),
        match old(db).invite_by_uuid(invite_uuid) {
            None => {
                &&& r == Err::<(), ApiError>(ApiError::BadRequest)
                &&& *final(db) == *old(db)
                &&& *final(session) == *old(session)
            },
            Some(invite) => if invite.expires_at < now {
                &&& r == Err::<(), ApiError>(ApiError::BadRequest)
                &&& *final(db) == *old(db)
                &&& *final(session) == *old(session)
            } else if !acceptance_possible(
                *old(db),
                invite,
                old(session).id,
                new_user_uuid,
                new_local_uuid,
            ) {
                &&& r == Err::<(), ApiError>(ApiError::InternalServerError)
                &&& *final(db) == *old(db)
                &&& *final(session) == *old(session)
            } else {
                &&& r == Ok::<(), ApiError>(())
                &&& acceptance_applied(
                    *old(db),
                    *final(db),
                    invite,
                    old(session).id,
                    new_user_uuid,
                    new_local_uuid,
                )
                &&& final(db).local_by_uuid(new_local_uuid) matches Some(l) && l.password == Some(
                    hashed,
                )
                &&& final(session).id == old(session).id
                &&& final(session).user == Some(new_user_uuid)
                &&& final(session).partial == old(session).partial
                &&& final(session).ceremony == old(session).ceremony
                &&& final(session).oidc_request == old(session).oidc_request
            },
        },
{
    let Some(ii) = db.find_invite_by_uuid(invite_uuid) else {
        return Err(ApiError::BadRequest);
    };
    if db.user_invites[ii].expires_at < now {
        return Err(ApiError::BadRequest);
    }
    let mail = match CheckedString::<1, 255>::new(db.user_invites[ii].email.clone()) {
        Ok(mail) => mail,
        Err(_) => { return Err(ApiError::InternalServerError) },
    };
    let display_name = match CheckedString::<1, 255>::new(
        db.user_invites[ii].display_name.clone(),
    ) {
        Ok(name) => name,
        Err(_) => { return Err(ApiError::InternalServerError) },
    };
    if db.find_user_by_mail(mail.as_string()).is_some() {
        return Err(ApiError::InternalServerError);
    }
    if db.find_user_by_uuid(new_user_uuid).is_some() {
        return Err(ApiError::InternalServerError);
    }
    if db.find_local_by_uuid(new_local_uuid).is_some() {
        return Err(ApiError::InternalServerError);
    }
    if db.find_local_by_user(new_user_uuid).is_some() {
        return Err(ApiError::InternalServerError);
    }
    if db.find_record_by_id(session.id).is_none() {
        return Err(ApiError::InternalServerError);
    }
    let preferred_lang = db.user_invites[ii].preferred_lang;
    let permissions = db.user_invites[ii].permissions;

    db.user_invites.remove(ii);
    proof {
        let olds = old(db).user_invites@;
        let news = db.user_invites@;
        assert forall|k: int| 0 <= k < news.len() implies olds.contains(#[trigger] news[k])
            && news[k].uuid != invite_uuid by {
            if k < ii {
                assert(news[k] == olds[k]);
                if news[k].uuid == invite_uuid {
                    old(db).lemma_invite_uuid_unique(k, ii as int);
                }
            } else {
                assert(news[k] == olds[k + 1]);
                if news[k].uuid == invite_uuid {
                    old(db).lemma_invite_uuid_unique(k + 1, ii as int);
                }
            }
        }
        assert forall|j: int|
            0 <= j < olds.len() && olds[j].uuid != invite_uuid implies news.contains(
            #[trigger] olds[j],
        ) by {
            if j < ii {
                assert(news[j] == olds[j]);
            } else if j > ii {
                assert(news[j - 1] == olds[j]);
            }
        }
        assert forall|a: int, b: int| 0 <= a < b < news.len() implies news[a].uuid != news[b].uuid
            && news[a].email@ != news[b].email@ by {
            if b < ii {
            } else if a < ii {
                assert(news[a] == olds[a] && news[b] == olds[b + 1]);
            } else {
                assert(news[a] == olds[a + 1] && news[b] == olds[b + 1]);
            }
        }
        assert(db.wf());
    }

    match User::create(db, mail, display_name, preferred_lang, permissions, new_user_uuid) {
        Ok(_) => (),
        Err(_) => { return Err(ApiError::InternalServerError) },
    }

    db.local_users.push(
        LocalUser { uuid: new_local_uuid, user: new_user_uuid, password: Some(hashed) },
    );
    proof {
        let news = db.local_users@;
        let last = news.len() - 1;
        assert(news[last].uuid == new_local_uuid && news[last].user == new_user_uuid);
        assert(db.wf());
        assert(exists|i: int| 0 <= i < news.len() && news[i].uuid == new_local_uuid);
        let w = choose|i: int| 0 <= i < news.len() && news[i].uuid == new_local_uuid;
        db.lemma_local_uuid_unique(w, last);
    }

    match set_logged_in(db, session, new_user_uuid) {
        Ok(()) => Ok(()),
        Err(_) => Err(ApiError::InternalServerError),
    }
}

/// Accept an invitation by choosing a password.
///
/// Hashes the chosen password — the one step whose outcome depends on
/// the hashing backend — and applies the checked acceptance with it:
/// see [`accept_invite_hashed`] for exactly when the acceptance goes
/// through. On success the stored password hash verifies against the
/// chosen password.
pub fn accept_with_password(
    db: &mut Store,
    session: &mut ClientSession,
    invite_uuid: u128,
    request: AcceptWithPwRequest,
    new_user_uuid: u128,
    new_local_uuid: u128,
    now: u64,
) -> (r: Result<(), ApiError>)
    requires
        old(db).wf(),
    ensures
        final(db).wf(),
        match old(db).invite_by_uuid(invite_uuid) {
            None => {
                &&& r == Err::<(), ApiError>(ApiError::BadRequest)
                &&& *final(db) == *old(db)
                &&& *final(session) == *old(session)
            },
            Some(invite) => if invite.expires_at < now {
                &&& r == Err::<(), ApiError>(ApiError::BadRequest)
                &&& *final(db) == *old(db)
                &&& *final(session) == *old(session)
            } else {
                ||| (r == Err::<(), ApiError>(ApiError::InternalServerError) && *final(db) == *old(db) && *final(session) == *old(session))
                ||| (r == Ok::<(), ApiError>(()) && acceptance_possible(
                    *old(db),
                    invite,
                    old(session).id,
                    new_user_uuid,
                    new_local_uuid,
                ) && acceptance_applied(
                    *old(db),
                    *final(db),
                    invite,
                    old(session).id,
                    new_user_uuid,
                    new_local_uuid,
                ) && (final(db).local_by_uuid(new_local_uuid) matches Some(l)
                    && l.password matches Some(p) && hash_usable(p@) && pw_matches(
                    request.password@,
                    p@,
                )) && final(session).user == Some(new_user_uuid) && final(session).id == old(session).id)
            },
        },
{
    let Some(ii) = db.find_invite_by_uuid(invite_uuid) else {
        return Err(ApiError::BadRequest);
    };
    if db.user_invites[ii].expires_at < now {
        return Err(ApiError::BadRequest);
    }
    let hashed = match hash_pw(request.password.as_str()) {
        Ok(hashed) => hashed,
        Err(e) => { return Err(e) },
    };
    accept_invite_hashed(db, session, invite_uuid, hashed, new_user_uuid, new_local_uuid, now)
}

/// Start accepting an invitation by registering an attested security
/// key.
///
/// A missing invite is a bad request; expiry is checked only when the
/// ceremony completes. The invite-acceptance ceremony — whose opaque
/// challenge state the ceremony backend produced for the new user's
/// identity — is stored in the session, to be consumed by
/// [`complete_invites_webauthn`] together with the identity the user
/// will be created under.
pub fn accept_with_webauthn(
    db: &Store,
    session: &mut ClientSession,
    invite_uuid: u128,
    request: AcceptWithWARequest,
    challenge: Vec<u8>,
    new_user_uuid: u128,
) -> (r: Result<(), ApiError>)
    requires
        db.wf(),
    ensures
        match db.invite_by_uuid(invite_uuid) {
            None => {
                &&& r == Err::<(), ApiError>(ApiError::BadRequest)
                &&& *final(session) == *old(session)
            },
            Some(_) => {
                &&& r == Ok::<(), ApiError>(())
                &&& final(session).ceremony matches Some(
                    CeremonyState::InviteAcceptance { user_uuid, invite_uuid: iu, label, challenge: ch },
                ) && user_uuid == new_user_uuid && iu == invite_uuid && label@ == request.label@
                    && ch == challenge
                &&& final(session).id == old(session).id
                &&& final(session).user == old(session).user
                &&& final(session).partial == old(session).partial
                &&& final(session).oidc_request == old(session).oidc_request
            },
        },
{
    if db.find_invite_by_uuid(invite_uuid).is_none() {
        return Err(ApiError::BadRequest);
    }
    session.ceremony = Some(
        CeremonyState::InviteAcceptance {
            user_uuid: new_user_uuid,
            invite_uuid,
            label: request.label.into_inner(),
            challenge,
        },
    );
    Ok(())
}

/// Complete the security-key ceremony that accepts an invitation.
///
/// The in-flight invite-acceptance ceremony is consumed whatever the
/// outcome; without one — in particular on a repeated completion
/// attempt — the call fails as a bad request and changes nothing. A
/// recognized rejection of the response is reported to the client and
/// an unrecognized failure is a bad request, both without touching the
/// store. The registered key must be attested — the invite ceremony
/// registers a login-capable key — so a not-attested key is rejected
/// as a bad request. With an attested key, the invite must still exist
/// and be unexpired (bad request otherwise), and the checked
/// all-or-nothing acceptance applies: the new user is created
/// passwordless, the attested key is stored for it, and the session is
/// logged in as the new user.
pub fn complete_invites_webauthn(
    db: &mut Store,
    session: &mut ClientSession,
    outcome: WebAuthnRegisterOutcome,
    new_local_uuid: u128,
    new_key_uuid: u128,
    now: u64,
) -> (r: Result<WebAuthnRegisterResult, ApiError>)
    requires
        old(db).wf(),
    ensures
        final(db).wf(),
        match old(session).ceremony {
            Some(CeremonyState::InviteAcceptance { user_uuid, invite_uuid, label, challenge }) => {
                &&& final(session).ceremony is None
                &&& final(session).id == old(session).id
                &&& final(session).partial == old(session).partial
                &&& final(session).oidc_request == old(session).oidc_request
                &&& match outcome {
                    WebAuthnRegisterOutcome::Rejected(which) => r == Ok::<_, ApiError>(which)
                        && *final(db) == *old(db) && final(session).user == old(session).user,
                    WebAuthnRegisterOutcome::Failed => r == Err::<WebAuthnRegisterResult, _>(
                        ApiError::BadRequest,
                    ) && *final(db) == *old(db) && final(session).user == old(session).user,
                    WebAuthnRegisterOutcome::Registered(key) => if !(key is Attested) {
                        r == Err::<WebAuthnRegisterResult, _>(ApiError::BadRequest) && *final(db)
                            == *old(db) && final(session).user == old(session).user
                    } else {
                        match old(db).invite_by_uuid(invite_uuid) {
                        None => r == Err::<WebAuthnRegisterResult, _>(ApiError::BadRequest)
                            && *final(db) == *old(db) && final(session).user == old(session).user,
                        Some(invite) => if invite.expires_at < now {
                            r == Err::<WebAuthnRegisterResult, _>(ApiError::BadRequest) && *final(db) == *old(db) && final(session).user == old(session).user
                        } else if !(acceptance_possible(
                            *old(db),
                            invite,
                            old(session).id,
                            user_uuid,
                            new_local_uuid,
                        ) && (forall|j: int|
                            0 <= j < old(db).webauthn_keys@.len() ==> old(
                                db,
                            ).webauthn_keys@[j].uuid != new_key_uuid)) {
                            r == Err::<WebAuthnRegisterResult, _>(ApiError::InternalServerError)
                                && *final(db) == *old(db) && final(session).user == old(session).user
                        } else {
                            &&& r == Ok::<_, ApiError>(WebAuthnRegisterResult::Accepted)
                            &&& acceptance_applied_with_key(
                                *old(db),
                                *final(db),
                                invite,
                                old(session).id,
                                user_uuid,
                                new_local_uuid,
                            )
                            &&& exists|k: WebAuthnKey|
                                final(db).webauthn_keys@ == old(db).webauthn_keys@.push(k)
                                    && k.uuid == new_key_uuid && k.local_user == new_local_uuid
                                    && k.label@ == label@ && k.key == key && k.key is Attested
                                    && k.created_at == now
                            &&& final(db).local_by_uuid(new_local_uuid) matches Some(l)
                                && l.password is None
                            &&& final(session).user == Some(user_uuid)
                        },
                        }
                    },
                }
            },
            _ => {
                &&& r == Err::<WebAuthnRegisterResult, _>(ApiError::BadRequest)
                &&& *final(db) == *old(db)
                &&& *final(session) == *old(session)
            },
        },
{
    let ceremony = session.take_ceremony();
    let (user_uuid, invite_uuid, label) = match ceremony {
        Some(
            CeremonyState::InviteAcceptance { user_uuid, invite_uuid, label, challenge: _ },
        ) => (user_uuid, invite_uuid, label),
        other => {
            session.ceremony = other;
            return Err(ApiError::BadRequest);
        },
    };
    let key = match outcome {
        WebAuthnRegisterOutcome::Registered(key) => key,
        WebAuthnRegisterOutcome::Rejected(which) => { return Ok(which) },
        WebAuthnRegisterOutcome::Failed => { return Err(ApiError::BadRequest) },
    };
    match &key {
        MaybeAttestedPasskey::Attested(_) => (),
        MaybeAttestedPasskey::NotAttested(_) => { return Err(ApiError::BadRequest) },
    }

    let Some(ii) = db.find_invite_by_uuid(invite_uuid) else {
        return Err(ApiError::BadRequest);
    };
    if db.user_invites[ii].expires_at < now {
        return Err(ApiError::BadRequest);
    }
    let mail = match CheckedString::<1, 255>::new(db.user_invites[ii].email.clone()) {
        Ok(mail) => mail,
        Err(_) => { return Err(ApiError::InternalServerError) },
    };
    let display_name = match CheckedString::<1, 255>::new(
        db.user_invites[ii].display_name.clone(),
    ) {
        Ok(name) => name,
        Err(_) => { return Err(ApiError::InternalServerError) },
    };
    if db.find_user_by_mail(mail.as_string()).is_some() {
        return Err(ApiError::InternalServerError);
    }
    if db.find_user_by_uuid(user_uuid).is_some() {
        return Err(ApiError::InternalServerError);
    }
    if db.find_local_by_uuid(new_local_uuid).is_some() {
        return Err(ApiError::InternalServerError);
    }
    if db.find_local_by_user(user_uuid).is_some() {
        return Err(ApiError::InternalServerError);
    }
    if db.find_record_by_id(session.id).is_none() {
        return Err(ApiError::InternalServerError);
    }
    if db.find_webauthn_by_uuid(new_key_uuid).is_some() {
        return Err(ApiError::InternalServerError);
    }
    let preferred_lang = db.user_invites[ii].preferred_lang;
    let permissions = db.user_invites[ii].permissions;

    db.user_invites.remove(ii);
    proof {
        let olds = old(db).user_invites@;
        let news = db.user_invites@;
        assert forall|k: int| 0 <= k < news.len() implies olds.contains(#[trigger] news[k])
            && news[k].uuid != invite_uuid by {
            if k < ii {
                assert(news[k] == olds[k]);
                if news[k].uuid == invite_uuid {
                    old(db).lemma_invite_uuid_unique(k, ii as int);
                }
            } else {
                assert(news[k] == olds[k + 1]);
                if news[k].uuid == invite_uuid {
                    old(db).lemma_invite_uuid_unique(k + 1, ii as int);
                }
            }
        }
        assert forall|j: int|
            0 <= j < olds.len() && olds[j].uuid != invite_uuid implies news.contains(
            #[trigger] olds[j],
        ) by {
            if j < ii {
                assert(news[j] == olds[j]);
            } else if j > ii {
                assert(news[j - 1] == olds[j]);
            }
        }
        assert forall|a: int, b: int| 0 <= a < b < news.len() implies news[a].uuid != news[b].uuid
            && news[a].email@ != news[b].email@ by {
            if b < ii {
            } else if a < ii {
                assert(news[a] == olds[a] && news[b] == olds[b + 1]);
            } else {
                assert(news[a] == olds[a + 1] && news[b] == olds[b + 1]);
            }
        }
        assert(db.wf());
    }

    match User::create(db, mail, display_name, preferred_lang, permissions, user_uuid) {
        Ok(_) => (),
        Err(_) => { return Err(ApiError::InternalServerError) },
    }

    db.local_users.push(LocalUser { uuid: new_local_uuid, user: user_uuid, password: None });
    proof {
        let news = db.local_users@;
        let last = news.len() - 1;
        assert(news[last].uuid == new_local_uuid && news[last].user == user_uuid);
        assert(db.wf());
        assert(exists|i: int| 0 <= i < news.len() && news[i].uuid == new_local_uuid);
        let w = choose|i: int| 0 <= i < news.len() && news[i].uuid == new_local_uuid;
        db.lemma_local_uuid_unique(w, last);
    }

    db.webauthn_keys.push(
        WebAuthnKey { uuid: new_key_uuid, local_user: new_local_uuid, label, key, created_at: now },
    );
    proof {
        assert(db.wf());
        assert(db.webauthn_keys@ == old(db).webauthn_keys@.push(db.webauthn_keys@.last()));
    }

    match set_logged_in(db, session, user_uuid) {
        Ok(()) => Ok(WebAuthnRegisterResult::Accepted),
        Err(_) => Err(ApiError::InternalServerError),
    }
}

/// As [`acceptance_applied`], except that the new local credential row
/// is accompanied by WebAuthn-key changes the caller describes
/// separately.
pub open spec fn acceptance_applied_with_key(
    a: Store,
    b: Store,
    invite: UserInvite,
    session_id: u128,
    new_user_uuid: u128,
    new_local_uuid: u128,
) -> bool {
    &&& forall|k: int|
        0 <= k < b.user_invites@.len() ==> a.user_invites@.contains(#[trigger] b.user_invites@[k])
            && b.user_invites@[k].uuid != invite.uuid
    &&& forall|j: int|
        0 <= j < a.user_invites@.len() && a.user_invites@[j].uuid != invite.uuid
            ==> b.user_invites@.contains(#[trigger] a.user_invites@[j])
    &&& exists|u: User|
        b.users@ == a.users@.push(u) && u.uuid == new_user_uuid && u.mail@ == invite.email@
            && u.display_name@ == invite.display_name@ && u.preferred_lang
            == invite.preferred_lang && u.role == invite.permissions.spec_role()
    &&& exists|l: LocalUser|
        b.local_users@ == a.local_users@.push(l) && l.uuid == new_local_uuid && l.user
            == new_user_uuid
    &&& b.oidc_users@ == a.oidc_users@
    &&& b.totp_keys@ == a.totp_keys@
    &&& crate::auth::record_points_at(a, b, session_id, new_user_uuid)
}

} // verus!
