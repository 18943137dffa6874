//! The authentication state machine.
//!
//! A session moves from anonymous to authenticated either directly (a
//! password with no second factor, or an attested security key) or
//! through the partially-authenticated middle state guarded by the
//! time-bounded marker. Promotion is a dual write: the transient session
//! takes the user first, then the persisted session record is pointed at
//! the same user. If the record is missing, the inconsistency surfaces
//! as an internal error instead of being swallowed.

use vstd::prelude::*;

verus! {

use vstd::pervasive::VecAdditionalExecFns;
use crate::common::ApiError;
use crate::common::FormResult;
use crate::common::Optional;
use crate::crypto::pw_matches;
use crate::crypto::hash_usable;
use crate::crypto::totp_accepts;
use crate::crypto::verify_pw;
use crate::crypto::VerifyPwError;
use crate::models::SessionRecord;
use crate::models::Store;
use crate::session::CeremonyState;
use crate::session::ClientSession;
use crate::session::PartialAuthMarker;
use crate::strings::CheckedString;
use crate::strings::SecureString;

/// The request to retrieve a mail's possible login flows.
#[derive(Debug, Clone)]
pub struct LoginFlowsRequest {
    /// The mail whose login flows to query.
    pub mail: CheckedString<1, 255>,
}

/// Flags indicating which login flows an account supports.
///
/// When `oidc` is set the others are cleared; a federated account has no
/// local factors.
#[derive(Debug, Clone)]
pub struct SupportedLoginFlows {
    /// The mail the login flows are for.
    pub mail: CheckedString<1, 255>,
    /// The mail is authenticated through the federated identity server.
    pub oidc: bool,
    /// The mail supports password login.
    pub password: bool,
    /// The mail supports password-less login through a security key.
    pub key: bool,
}

/// The request for local login using a security key.
#[derive(Debug, Clone)]
pub struct LoginWebauthnRequest {
    /// The mail that is used for logging in.
    pub mail: CheckedString<1, 255>,
}

/// The errors of the security-key login request.
#[derive(Debug, Clone, Copy, Default, PartialEq, Eq, Structural)]
pub struct LoginWebauthnErrors {
    /// The mail does not belong to a locally authenticated user.
    pub mail: bool,
}

/// The request for local login using a password.
#[derive(Clone)]
pub struct LoginPasswordRequest {
    /// The mail that is used for logging in.
    pub mail: CheckedString<1, 255>,
    /// The password for the account.
    pub password: SecureString,
}

/// The errors of the password login request.
#[derive(Debug, Clone, Copy, Default, PartialEq, Eq, Structural)]
pub struct LoginPasswordErrors {
    /// The mail does not belong to a locally authenticated user.
    pub mail: bool,
    /// The password was wrong.
    pub password: bool,
}

/// The second factors available to an account after its password was
/// accepted.
#[derive(Debug, Clone, Copy, PartialEq, Eq, Structural)]
pub struct MFA {
    /// The account can present a TOTP token.
    pub has_totp: bool,
    /// The account can present a security key.
    pub has_webauthn: bool,
}

/// The response for local login using a password.
#[derive(Debug, Clone, Copy, PartialEq, Eq, Structural)]
pub enum LoginPasswordResponse {
    /// A second factor is still needed before the session is
    /// authenticated.
    NeedMFA {
        /// The second factors available to the account.
        mfa: MFA,
    },
    /// Fully authenticated; the session is set.
    Finished,
}

/// The request to verify a password login with a TOTP token.
#[derive(Debug, Clone)]
pub struct VerifyTotpRequest {
    /// The six-digit TOTP token.
    pub token: CheckedString<6, 6>,
}

/// The outcome reported to the client for a security-key authentication
/// ceremony.
#[derive(Debug, Clone, Copy, PartialEq, Eq, Structural)]
pub enum WebAuthnAuthenticateResult {
    /// The ceremony succeeded and the session is authenticated.
    Accepted,
    /// The ceremony's response was not accepted.
    Rejected,
}

/// Everything in the store except the session records is unchanged.
pub open spec fn rows_unchanged_except_sessions(a: Store, b: Store) -> bool {
    &&& b.users@ == a.users@
    &&& b.oidc_users@ == a.oidc_users@
    &&& b.local_users@ == a.local_users@
    &&& b.totp_keys@ == a.totp_keys@
    &&& b.webauthn_keys@ == a.webauthn_keys@
    &&& b.user_invites@ == a.user_invites@
}

/// The session records of `b` are those of `a` with the record for `id`
/// now pointing at `user`, and nothing else touched.
pub open spec fn record_points_at(a: Store, b: Store, id: u128, user: u128) -> bool {
    &&& b.sessions@.len() == a.sessions@.len()
    &&& forall|j: int|
        0 <= j < a.sessions@.len() ==> b.sessions@[j] == (if a.sessions@[j].id == id {
            SessionRecord { id, user: Some(user) }
        } else {
            a.sessions@[j]
        })
}

/// The transient session `b` is `a` promoted to `user`: the marker is
/// cleared and the user is set; identifier, ceremony and federated login
/// state stay.
pub open spec fn session_promoted(a: ClientSession, b: ClientSession, user: u128) -> bool {
    &&& b.id == a.id
    &&& b.user == Some(user)
    &&& b.partial is None
    &&& b.ceremony == a.ceremony
    &&& b.oidc_request == a.oidc_request
}

/// The cross-layer invariant of an authenticated session: the
/// persisted record under the session's identifier points at the same
/// user as the transient session.
pub open spec fn session_consistent(db: Store, session: ClientSession) -> bool {
    match session.user {
        Some(u) => db.record_by_id(session.id) matches Some(rec) && rec.user == Some(u),
        None => true,
    }
}

/// Promotion keeps the transient session and the persisted session
/// record in step: when a session is promoted to a user and its record
/// existed and was pointed at the same user, the two layers agree
/// afterwards.
pub proof fn lemma_promotion_consistent(
    db0: Store,
    db1: Store,
    s0: ClientSession,
    s1: ClientSession,
    user: u128,
)
    requires
        db0.wf(),
        db1.wf(),
        session_promoted(s0, s1, user),
        db0.record_by_id(s0.id) is Some,
        record_points_at(db0, db1, s0.id, user),
    ensures
        session_consistent(db1, s1),
{
    let w0 = choose|i: int| 0 <= i < db0.sessions@.len() && db0.sessions@[i].id == s0.id;
    assert(db0.sessions@[w0].id == s0.id);
    assert(db1.sessions@[w0] == SessionRecord { id: s0.id, user: Some(user) });
    assert(exists|i: int| 0 <= i < db1.sessions@.len() && db1.sessions@[i].id == s0.id);
    let w1 = choose|i: int| 0 <= i < db1.sessions@.len() && db1.sessions@[i].id == s0.id;
    db1.lemma_record_id_unique(w0, w1);
}

/// Read the partial-authentication marker of the session.
///
/// Returns the local user the marker targets exactly when a marker
/// exists and is still within its window at `now`; an absent or expired
/// marker is rejected with `Unauthenticated` and is not refreshed or
/// removed.
pub fn get_partial_session_user(session: &ClientSession, now: u64) -> (r: Result<u128, ApiError>)
    ensures
        match r {
            Ok(local_user) => session.partial matches Some(m) && m.live_at(now) && local_user
                == m.local_user,
            Err(e) => {
                &&& e == ApiError::Unauthenticated
                &&& !(session.partial matches Some(m) && m.live_at(now))
            },
        },
{
    let Some(marker) = session.partial else {
        return Err(ApiError::Unauthenticated);
    };
    if now > marker.created_at && now - marker.created_at > crate::session::MFA_TIMEOUT_SECS {
        return Err(ApiError::Unauthenticated);
    }
    Ok(marker.local_user)
}

/// Leave a partial-authentication marker for the local user, created at
/// `now`.
///
/// Any previous marker is overwritten, so at most one marker is live per
/// session.
pub fn set_partial_session_user(session: &mut ClientSession, local_user: u128, now: u64)
    ensures
        final(session).partial == Some(PartialAuthMarker { created_at: now, local_user }),
        final(session).id == old(session).id,
        final(session).user == old(session).user,
        final(session).ceremony == old(session).ceremony,
        final(session).oidc_request == old(session).oidc_request,
{
    session.partial = Some(PartialAuthMarker { created_at: now, local_user });
}

/// Promote the session to the user owning the local credential row.
///
/// This is the dual write: the marker is cleared and the transient
/// session takes the user first; then the persisted session record under
/// the session's identifier is pointed at the same user. An unknown
/// local credential row is rejected up front with `Unauthenticated`.
/// A missing session record after the transient write surfaces as
/// `InternalServerError`: the session is then inconsistent — the client
/// side believes it is logged in while the record does not reflect it —
/// and this is reported rather than swallowed.
pub fn set_session_user(db: &mut Store, session: &mut ClientSession, local_user_uuid: u128) -> (r:
    Result<(), ApiError>)
    requires
        old(db).wf(),
    ensures
        final(db).wf(),
        match old(db).local_by_uuid(local_user_uuid) {
            None => {
                &&& r == Err::<(), ApiError>(ApiError::Unauthenticated)
                &&& *final(db) == *old(db)
                &&& *final(session) == *old(session)
            },
            Some(lu) => {
                &&& session_promoted(*old(session), *final(session), lu.user)
                &&& rows_unchanged_except_sessions(*old(db), *final(db))
                &&& match old(db).record_by_id(old(session).id) {
                    Some(_) => {
                        &&& r == Ok::<(), ApiError>(())
                        &&& record_points_at(*old(db), *final(db), old(session).id, lu.user)
                        &&& final(db).record_by_id(old(session).id) == Some(
                            SessionRecord { id: old(session).id, user: Some(lu.user) },
                        )
                    },
                    None => {
                        &&& r == Err::<(), ApiError>(ApiError::InternalServerError)
                        &&& final(db).sessions@ == old(db).sessions@
                    },
                }
            },
        },
{
    let Some(li) = db.find_local_by_uuid(local_user_uuid) else {
        return Err(ApiError::Unauthenticated);
    };
    let user_uuid = db.local_users[li].user;

    session.partial = None;
    session.user = Some(user_uuid);

    let Some(ri) = db.find_record_by_id(session.id) else {
        return Err(ApiError::InternalServerError);
    };
    db.sessions.set(ri, SessionRecord { id: session.id, user: Some(user_uuid) });

    proof {
        let olds = old(db).sessions@;
        let news = db.sessions@;
        assert(forall|k: int| 0 <= k < news.len() ==> news[k].id == olds[k].id);
        assert forall|j: int|
            0 <= j < olds.len() implies news[j] == (if olds[j].id == old(session).id {
            SessionRecord { id: old(session).id, user: Some(user_uuid) }
        } else {
            olds[j]
        }) by {
            if j != ri {
                assert(news[j] == olds[j]);
                if olds[j].id == old(session).id {
                    old(db).lemma_record_id_unique(j, ri as int);
                }
            }
        }
        assert(db.wf());
        assert(exists|i: int| 0 <= i < news.len() && news[i].id == old(session).id);
        let w = choose|i: int| 0 <= i < news.len() && news[i].id == old(session).id;
        db.lemma_record_id_unique(w, ri as int);
    }
    Ok(())
}

/// Point the session and its persisted record directly at a user.
///
/// Used when an invite acceptance creates the user: the session takes
/// the identity without a marker having existed. The partial marker, an
/// in-flight ceremony and the federated login state are left as they
/// are. A missing session record surfaces as `InternalServerError`.
pub fn set_logged_in(db: &mut Store, session: &mut ClientSession, user_uuid: u128) -> (r: Result<
    (),
    ApiError,
>)
    requires
        old(db).wf(),
    ensures
        final(db).wf(),
        final(session).id == old(session).id,
        final(session).user == Some(user_uuid),
        final(session).partial == old(session).partial,
        final(session).ceremony == old(session).ceremony,
        final(session).oidc_request == old(session).oidc_request,
        rows_unchanged_except_sessions(*old(db), *final(db)),
        match old(db).record_by_id(old(session).id) {
            Some(_) => {
                &&& r == Ok::<(), ApiError>(())
                &&& record_points_at(*old(db), *final(db), old(session).id, user_uuid)
                &&& final(db).record_by_id(old(session).id) == Some(
                    SessionRecord { id: old(session).id, user: Some(user_uuid) },
                )
            },
            None => {
                &&& r == Err::<(), ApiError>(ApiError::InternalServerError)
                &&& final(db).sessions@ == old(db).sessions@
            },
        },
{
    session.user = Some(user_uuid);

    let Some(ri) = db.find_record_by_id(session.id) else {
        return Err(ApiError::InternalServerError);
    };
    db.sessions.set(ri, SessionRecord { id: session.id, user: Some(user_uuid) });

    proof {
        let olds = old(db).sessions@;
        let news = db.sessions@;
        assert(forall|k: int| 0 <= k < news.len() ==> news[k].id == olds[k].id);
        assert forall|j: int|
            0 <= j < olds.len() implies news[j] == (if olds[j].id == old(session).id {
            SessionRecord { id: old(session).id, user: Some(user_uuid) }
        } else {
            olds[j]
        }) by {
            if j != ri {
                assert(news[j] == olds[j]);
                if olds[j].id == old(session).id {
                    old(db).lemma_record_id_unique(j, ri as int);
                }
            }
        }
        assert(db.wf());
        assert(exists|i: int| 0 <= i < news.len() && news[i].id == old(session).id);
        let w = choose|i: int| 0 <= i < news.len() && news[i].id == old(session).id;
        db.lemma_record_id_unique(w, ri as int);
    }
    Ok(())
}

/// The user a session is authenticated as, as an index into the store's
/// users.
///
/// Rejects with `Unauthenticated` when the session carries no user or
/// the user no longer exists.
pub fn session_user(db: &Store, session: &ClientSession) -> (r: Result<usize, ApiError>)
    requires
        db.wf(),
    ensures
        match r {
            Ok(i) => {
                &&& session.user matches Some(uu)
                &&& i < db.users@.len()
                &&& db.users@[i as int].uuid == uu
                &&& db.user_by_uuid(uu) == Some(db.users@[i as int])
            },
            Err(e) => {
                &&& e == ApiError::Unauthenticated
                &&& match session.user {
                    Some(uu) => db.user_by_uuid(uu) is None,
                    None => true,
                }
            },
        },
{
    let Some(user_uuid) = session.user else {
        return Err(ApiError::Unauthenticated);
    };
    match db.find_user_by_uuid(user_uuid) {
        Some(i) => Ok(i),
        None => Err(ApiError::Unauthenticated),
    }
}

/// Drop the current session: log out.
///
/// The transient session is flushed — user, marker, ceremony and
/// federated login state are cleared — and the persisted session record
/// is deleted. Records of other sessions are untouched (their order may
/// shift).
pub fn logout(db: &mut Store, session: &mut ClientSession)
    requires
        old(db).wf(),
    ensures
        final(db).wf(),
        final(session).id == old(session).id,
        final(session).user is None,
        final(session).partial is None,
        final(session).ceremony is None,
        final(session).oidc_request is None,
        rows_unchanged_except_sessions(*old(db), *final(db)),
        final(db).record_by_id(old(session).id) is None,
        final(db).sessions@.len() == old(db).sessions@.len() - (
        if old(db).record_by_id(old(session).id) is Some {
            1int
        } else {
            0int
        }),
        forall|k: int|
            0 <= k < final(db).sessions@.len() ==> final(db).sessions@[k].id != old(session).id
                && old(db).sessions@.contains(#[trigger] final(db).sessions@[k]),
        forall|k: int|
            0 <= k < old(db).sessions@.len() && old(db).sessions@[k].id != old(session).id
                ==> final(db).sessions@.contains(#[trigger] old(db).sessions@[k]),
{
    session.user = None;
    session.partial = None;
    session.ceremony = None;
    session.oidc_request = None;

    match db.find_record_by_id(session.id) {
        Some(ri) => {
            db.sessions.remove(ri);
            proof {
                let olds = old(db).sessions@;
                let news = db.sessions@;
                assert(news == olds.remove(ri as int));
                assert forall|k: int| 0 <= k < news.len() implies news[k].id != old(session).id
                    && olds.contains(news[k]) by {
                    if k < ri {
                        assert(news[k] == olds[k]);
                        if news[k].id == old(session).id {
                            old(db).lemma_record_id_unique(k, ri as int);
                        }
                    } else {
                        assert(news[k] == olds[k + 1]);
                        if news[k].id == old(session).id {
                            old(db).lemma_record_id_unique(k + 1, ri as int);
                        }
                    }
                }
                assert forall|k: int|
                    0 <= k < olds.len() && olds[k].id != old(session).id implies news.contains(
                    olds[k],
                ) by {
                    if k < ri {
                        assert(news[k] == olds[k]);
                    } else if k > ri {
                        assert(news[k - 1] == olds[k]);
                    }
                }
                assert forall|a: int, b: int|
                    0 <= a < b < news.len() implies news[a].id != news[b].id by {
                    if b < ri {
                    } else if a < ri {
                        assert(news[a] == olds[a] && news[b] == olds[b + 1]);
                    } else {
                        assert(news[a] == olds[a + 1] && news[b] == olds[b + 1]);
                    }
                }
                assert(db.wf());
                if exists|i: int| 0 <= i < news.len() && news[i].id == old(session).id {
                    let w = choose|i: int| 0 <= i < news.len() && news[i].id == old(session).id;
                    assert(news[w].id != old(session).id);
                }
            }
        },
        None => (),
    }
}

/// The transient session `b` is `a` with a fresh marker for
/// `local_user`, created at `now`, and nothing else changed.
pub open spec fn session_marked(a: ClientSession, b: ClientSession, local_user: u128, now: u64) -> bool {
    &&& b.id == a.id
    &&& b.user == a.user
    &&& b.partial == Some(PartialAuthMarker { created_at: now, local_user })
    &&& b.ceremony == a.ceremony
    &&& b.oidc_request == a.oidc_request
}

/// The login flows available to a mail, for login-flow discovery.
///
/// Distinguishes an unknown mail (nothing), a federated account (only
/// the redirect flow), and a local account (password when a hash is
/// stored, a key when an attested key is registered). A user that is
/// neither federated nor local is an inconsistent store and surfaces as
/// an internal error.
pub fn get_login_flows(db: &Store, request: LoginFlowsRequest) -> (r: Result<
    Optional<SupportedLoginFlows>,
    ApiError,
>)
    requires
        db.wf(),
    ensures
        match db.user_by_mail(request.mail@) {
            None => r matches Ok(o) && o.optional is None,
            Some(user) => match db.oidc_by_user(user.uuid) {
                Some(_) => r matches Ok(o) && o.optional matches Some(f) && f.mail@
                    == request.mail@ && f.oidc && !f.password && !f.key,
                None => match db.local_by_user(user.uuid) {
                    None => r == Err::<Optional<SupportedLoginFlows>, ApiError>(
                        ApiError::InternalServerError,
                    ),
                    Some(lu) => r matches Ok(o) && o.optional matches Some(f) && f.mail@
                        == request.mail@ && !f.oidc && f.password == (lu.password is Some)
                        && f.key == db.has_attested_webauthn(lu.uuid),
                },
            },
        },
{
    let Some(ui) = db.find_user_by_mail(request.mail.as_string()) else {
        return Ok(Optional::none());
    };
    let user_uuid = db.users[ui].uuid;

    if db.find_oidc_by_user(user_uuid).is_some() {
        return Ok(
            Optional::some(
                SupportedLoginFlows { mail: request.mail, oidc: true, password: false, key: false },
            ),
        );
    }
    let Some(li) = db.find_local_by_user(user_uuid) else {
        return Err(ApiError::InternalServerError);
    };
    let password = db.local_users[li].password.is_some();
    let key = db.check_has_attested_webauthn(db.local_users[li].uuid);
    Ok(Optional::some(SupportedLoginFlows { mail: request.mail, oidc: false, password, key }))
}

/// Local login using a password; might leave a second factor to verify.
///
/// An unknown mail, a mail without a local account, and a wrong
/// password are reported as field errors; an account without a stored
/// password cannot log in this way and is rejected as a bad request.
/// With the password accepted: if the account has a TOTP key or a
/// security key registered, the session receives a
/// partial-authentication marker created at `now` and the available
/// factors are reported; otherwise the session is promoted to the
/// account's user outright.
pub fn login_password(
    db: &mut Store,
    session: &mut ClientSession,
    request: LoginPasswordRequest,
    now: u64,
) -> (r: Result<FormResult<LoginPasswordResponse, LoginPasswordErrors>, ApiError>)
    requires
        old(db).wf(),
    ensures
        final(db).wf(),
        match old(db).local_by_mail(request.mail@) {
            None => {
                &&& r == Ok::<_, ApiError>(
                    FormResult::<LoginPasswordResponse, LoginPasswordErrors>::Invalid {
                        error: LoginPasswordErrors { mail: true, password: false },
                    },
                )
                &&& *final(db) == *old(db)
                &&& *final(session) == *old(session)
            },
            Some(lu) => match lu.password {
                None => {
                    &&& r == Err::<FormResult<LoginPasswordResponse, LoginPasswordErrors>, _>(
                        ApiError::BadRequest,
                    )
                    &&& *final(db) == *old(db)
                    &&& *final(session) == *old(session)
                },
                Some(hash) => {
                    &&& !hash_usable(hash@) ==> r == Err::<
                        FormResult<LoginPasswordResponse, LoginPasswordErrors>,
                        _,
                    >(ApiError::InternalServerError) && *final(db) == *old(db) && *final(session)
                        == *old(session)
                    &&& (hash_usable(hash@) && !pw_matches(request.password@, hash@)) ==> r == Ok::<
                        _,
                        ApiError,
                    >(
                        FormResult::<LoginPasswordResponse, LoginPasswordErrors>::Invalid {
                            error: LoginPasswordErrors { mail: false, password: true },
                        },
                    ) && *final(db) == *old(db) && *final(session) == *old(session)
                    &&& (hash_usable(hash@) && pw_matches(request.password@, hash@)) ==> {
                        let has_totp = old(db).has_totp(lu.uuid);
                        let has_webauthn = old(db).has_webauthn(lu.uuid);
                        if has_totp || has_webauthn {
                            &&& r == Ok::<_, ApiError>(
                                FormResult::<LoginPasswordResponse, LoginPasswordErrors>::Valid {
                                    value: LoginPasswordResponse::NeedMFA {
                                        mfa: MFA { has_totp, has_webauthn },
                                    },
                                },
                            )
                            &&& *final(db) == *old(db)
                            &&& session_marked(*old(session), *final(session), lu.uuid, now)
                        } else {
                            &&& session_promoted(*old(session), *final(session), lu.user)
                            &&& rows_unchanged_except_sessions(*old(db), *final(db))
                            &&& match old(db).record_by_id(old(session).id) {
                                Some(_) => {
                                    &&& r == Ok::<_, ApiError>(
                                        FormResult::<
                                            LoginPasswordResponse,
                                            LoginPasswordErrors,
                                        >::Valid { value: LoginPasswordResponse::Finished },
                                    )
                                    &&& record_points_at(
                                        *old(db),
                                        *final(db),
                                        old(session).id,
                                        lu.user,
                                    )
                                },
                                None => {
                                    &&& r == Err::<
                                        FormResult<LoginPasswordResponse, LoginPasswordErrors>,
                                        _,
                                    >(ApiError::InternalServerError)
                                    &&& final(db).sessions@ == old(db).sessions@
                                },
                            }
                        }
                    }
                },
            },
        },
{
    let Some(ui) = db.find_user_by_mail(request.mail.as_string()) else {
        return Ok(FormResult::err(LoginPasswordErrors { mail: true, password: false }));
    };
    let user_uuid = db.users[ui].uuid;
    let Some(li) = db.find_local_by_user(user_uuid) else {
        return Ok(FormResult::err(LoginPasswordErrors { mail: true, password: false }));
    };

    let verdict = match &db.local_users[li].password {
        Some(hash) => verify_pw(request.password.as_str(), hash.as_str()),
        None => { return Err(ApiError::BadRequest) },
    };
    match verdict {
        Ok(()) => (),
        Err(VerifyPwError::Hash) => { return Err(ApiError::InternalServerError) },
        Err(VerifyPwError::Mismatch) => {
            return Ok(FormResult::err(LoginPasswordErrors { mail: false, password: true }));
        },
    }

    let local_uuid = db.local_users[li].uuid;
    let has_totp = db.check_has_totp(local_uuid);
    let has_webauthn = db.check_has_webauthn(local_uuid);

    if has_totp || has_webauthn {
        set_partial_session_user(session, local_uuid, now);
        Ok(FormResult::ok(LoginPasswordResponse::NeedMFA { mfa: MFA { has_totp, has_webauthn } }))
    } else {
        proof {
            assert(exists|k: int|
                0 <= k < db.local_users@.len() && db.local_users@[k].uuid == local_uuid);
            let w = choose|k: int|
                0 <= k < db.local_users@.len() && db.local_users@[k].uuid == local_uuid;
            db.lemma_local_uuid_unique(w, li as int);
        }
        match set_session_user(db, session, local_uuid) {
            Ok(()) => Ok(FormResult::ok(LoginPasswordResponse::Finished)),
            Err(e) => Err(e),
        }
    }
}

/// Verify a password login with a TOTP token.
///
/// Requires a live partial-authentication marker; an absent or expired
/// marker is rejected with `Unauthenticated` whatever the token says.
/// The token is accepted when any TOTP key of the marked local user
/// accepts it at `now`; a rejected token leaves every state unchanged.
/// An accepted token promotes the session to the account's user. The
/// time must lie a 30-second step inside the 64-bit range, a limit of
/// the TOTP backend's step arithmetic.
pub fn verify_totp(
    db: &mut Store,
    session: &mut ClientSession,
    request: VerifyTotpRequest,
    now: u64,
) -> (r: Result<(), ApiError>)
    requires
        old(db).wf(),
        30 <= now <= u64::MAX - 30,
    ensures
        final(db).wf(),
        match old(session).partial {
            Some(m) if m.live_at(now) => {
                let accepted = exists|i: int|
                    0 <= i < old(db).totp_keys@.len() && old(db).totp_keys@[i].local_user
                        == m.local_user && totp_accepts(
                        old(db).totp_keys@[i].secret@,
                        request.token@,
                        now,
                    );
                if !accepted {
                    &&& r == Err::<(), ApiError>(ApiError::Unauthenticated)
                    &&& *final(db) == *old(db)
                    &&& *final(session) == *old(session)
                } else {
                    match old(db).local_by_uuid(m.local_user) {
                        None => {
                            &&& r == Err::<(), ApiError>(ApiError::Unauthenticated)
                            &&& *final(db) == *old(db)
                            &&& *final(session) == *old(session)
                        },
                        Some(lu) => {
                            &&& session_promoted(*old(session), *final(session), lu.user)
                            &&& rows_unchanged_except_sessions(*old(db), *final(db))
                            &&& match old(db).record_by_id(old(session).id) {
                                Some(_) => r == Ok::<(), ApiError>(()) && record_points_at(
                                    *old(db),
                                    *final(db),
                                    old(session).id,
                                    lu.user,
                                ),
                                None => r == Err::<(), ApiError>(ApiError::InternalServerError)
                                    && final(db).sessions@ == old(db).sessions@,
                            }
                        },
                    }
                }
            },
            _ => {
                &&& r == Err::<(), ApiError>(ApiError::Unauthenticated)
                &&& *final(db) == *old(db)
                &&& *final(session) == *old(session)
            },
        },
{
    let local_uuid = match get_partial_session_user(session, now) {
        Ok(lu) => lu,
        Err(e) => { return Err(e) },
    };

    let mut is_valid = false;
    let n = db.totp_keys.len();
    for i in 0..n
        invariant
            n == db.totp_keys@.len(),
            30 <= now <= u64::MAX - 30,
            is_valid ==> exists|j: int|
                0 <= j < db.totp_keys@.len() && db.totp_keys@[j].local_user == local_uuid
                    && totp_accepts(db.totp_keys@[j].secret@, request.token@, now),
            !is_valid ==> forall|j: int|
                0 <= j < i ==> !(db.totp_keys@[j].local_user == local_uuid && totp_accepts(
                    db.totp_keys@[j].secret@,
                    request.token@,
                    now,
                )),
    {
        if !is_valid && db.totp_keys[i].local_user == local_uuid {
            if crate::crypto::totp_check(&db.totp_keys[i].secret, request.token.as_str(), now) {
                is_valid = true;
            }
        }
    }

    if !is_valid {
        return Err(ApiError::Unauthenticated);
    }
    set_session_user(db, session, local_uuid)
}

/// Start a password-less login with an attested security key.
///
/// The account is looked up by mail; a mail without a local account is
/// reported as a field error. Otherwise the attested authentication
/// ceremony — whose opaque challenge state the ceremony backend
/// produced from the account's attested keys — is stored in the
/// session, to be consumed by [`complete_auth_webauthn`]. No password
/// and no marker take part: success will authenticate directly.
pub fn login_webauthn(
    db: &Store,
    session: &mut ClientSession,
    request: LoginWebauthnRequest,
    challenge: Vec<u8>,
) -> (r: Result<FormResult<(), LoginWebauthnErrors>, ApiError>)
    requires
        db.wf(),
    ensures
        match db.local_by_mail(request.mail@) {
            None => {
                &&& r == Ok::<_, ApiError>(
                    FormResult::<(), LoginWebauthnErrors>::Invalid {
                        error: LoginWebauthnErrors { mail: true },
                    },
                )
                &&& *final(session) == *old(session)
            },
            Some(lu) => {
                &&& r == Ok::<_, ApiError>(FormResult::<(), LoginWebauthnErrors>::Valid {
                    value: (),
                })
                &&& final(session).ceremony == Some(
                    CeremonyState::Authentication {
                        attested: true,
                        local_user: lu.uuid,
                        challenge: challenge,
                    },
                )
                &&& final(session).id == old(session).id
                &&& final(session).user == old(session).user
                &&& final(session).partial == old(session).partial
                &&& final(session).oidc_request == old(session).oidc_request
            },
        },
{
    let Some(ui) = db.find_user_by_mail(request.mail.as_string()) else {
        return Ok(FormResult::err(LoginWebauthnErrors { mail: true }));
    };
    let Some(li) = db.find_local_by_user(db.users[ui].uuid) else {
        return Ok(FormResult::err(LoginWebauthnErrors { mail: true }));
    };
    let local_uuid = db.local_users[li].uuid;
    session.ceremony = Some(
        CeremonyState::Authentication { attested: true, local_user: local_uuid, challenge },
    );
    Ok(FormResult::ok(()))
}

/// Start the security-key verification of a password login.
///
/// Requires a live partial-authentication marker, rejected with
/// `Unauthenticated` otherwise. Stores the not-attested authentication
/// ceremony — whose opaque challenge state the ceremony backend
/// produced from all of the account's keys — in the session, to be
/// consumed by [`complete_auth_webauthn`].
pub fn verify_webauthn(session: &mut ClientSession, challenge: Vec<u8>, now: u64) -> (r: Result<
    (),
    ApiError,
>)
    ensures
        match old(session).partial {
            Some(m) if m.live_at(now) => {
                &&& r == Ok::<(), ApiError>(())
                &&& final(session).ceremony == Some(
                    CeremonyState::Authentication {
                        attested: false,
                        local_user: m.local_user,
                        challenge: challenge,
                    },
                )
                &&& final(session).id == old(session).id
                &&& final(session).user == old(session).user
                &&& final(session).partial == old(session).partial
                &&& final(session).oidc_request == old(session).oidc_request
            },
            _ => {
                &&& r == Err::<(), ApiError>(ApiError::Unauthenticated)
                &&& *final(session) == *old(session)
            },
        },
{
    let local_uuid = match get_partial_session_user(session, now) {
        Ok(lu) => lu,
        Err(e) => { return Err(e) },
    };
    session.ceremony = Some(
        CeremonyState::Authentication { attested: false, local_user: local_uuid, challenge },
    );
    Ok(())
}

/// Complete a security-key authentication ceremony.
///
/// The in-flight authentication ceremony is consumed whether the
/// backend accepted the response or not: `success` carries the
/// backend's verdict on the response against the consumed challenge
/// state. Without an in-flight authentication ceremony — in particular
/// on a repeated completion attempt — the call fails as a bad request
/// and changes nothing. A rejected response reports `Rejected` and
/// leaves the session otherwise unchanged; an accepted one promotes the
/// session to the user owning the ceremony's local credential row.
pub fn complete_auth_webauthn(db: &mut Store, session: &mut ClientSession, success: bool) -> (r:
    Result<WebAuthnAuthenticateResult, ApiError>)
    requires
        old(db).wf(),
    ensures
        final(db).wf(),
        match old(session).ceremony {
            Some(CeremonyState::Authentication { attested, local_user, challenge }) => {
                &&& final(session).ceremony is None
                &&& final(session).id == old(session).id
                &&& final(session).oidc_request == old(session).oidc_request
                &&& if !success {
                    &&& r == Ok::<_, ApiError>(WebAuthnAuthenticateResult::Rejected)
                    &&& *final(db) == *old(db)
                    &&& final(session).user == old(session).user
                    &&& final(session).partial == old(session).partial
                } else {
                    match old(db).local_by_uuid(local_user) {
                        None => {
                            &&& r == Err::<WebAuthnAuthenticateResult, _>(
                                ApiError::Unauthenticated,
                            )
                            &&& *final(db) == *old(db)
                            &&& final(session).user == old(session).user
                            &&& final(session).partial == old(session).partial
                        },
                        Some(lu) => {
                            &&& final(session).user == Some(lu.user)
                            &&& final(session).partial is None
                            &&& rows_unchanged_except_sessions(*old(db), *final(db))
                            &&& match old(db).record_by_id(old(session).id) {
                                Some(_) => r == Ok::<_, ApiError>(
                                    WebAuthnAuthenticateResult::Accepted,
                                ) && record_points_at(*old(db), *final(db), old(session).id, lu.user),
                                None => r == Err::<WebAuthnAuthenticateResult, _>(
                                    ApiError::InternalServerError,
                                ) && final(db).sessions@ == old(db).sessions@,
                            }
                        },
                    }
                }
            },
            _ => {
                &&& r == Err::<WebAuthnAuthenticateResult, _>(ApiError::BadRequest)
                &&& *final(db) == *old(db)
                &&& *final(session) == *old(session)
            },
        },
{
    let ceremony = session.take_ceremony();
    let local_user = match ceremony {
        Some(CeremonyState::Authentication { attested: _, local_user, challenge: _ }) => local_user,
        other => {
            session.ceremony = other;
            return Err(ApiError::BadRequest);
        },
    };

    if !success {
        return Ok(WebAuthnAuthenticateResult::Rejected);
    }
    match set_session_user(db, session, local_user) {
        Ok(()) => Ok(WebAuthnAuthenticateResult::Accepted),
        Err(e) => Err(e),
    }
}


} // verus!
