//! The verified core of the federated login round trip.
//!
//! The redirect to the provider and the token exchange are protocol
//! plumbing performed outside; what is verified here is the state the
//! session keeps across the round trip — stored once, consumed once,
//! and checked against forgery — and the promotion that follows a
//! verified identity: find or create the user behind the provider's
//! identifier and log the session in.

use vstd::prelude::*;

verus! {

use crate::auth::record_points_at;
use crate::auth::rows_unchanged_except_sessions;
use crate::auth::set_logged_in;
use crate::common::ApiError;
use crate::common::SchemaString;
use crate::models::OidcUser;
use crate::models::Store;
use crate::models::User;
use crate::models::UserLanguage;
use crate::models::UserPermissions;
use crate::session::AuthState;
use crate::session::ClientSession;
use crate::strings::CheckedString;

/// The query parameters the provider redirects back with.
#[derive(Debug, Clone)]
pub struct AuthRequest {
    /// The one-time code to exchange for a token.
    pub code: SchemaString<String>,
    /// The anti-forgery state echoed by the provider.
    pub state: SchemaString<String>,
}

/// Store the state of a fresh federated login round trip in the
/// session: the anti-forgery token, the proof-key verifier and the
/// nonce. A previous round trip's state is overwritten.
pub fn start_oidc_auth(session: &mut ClientSession, state: AuthState)
    ensures
        final(session).oidc_request == Some(state),
        final(session).id == old(session).id,
        final(session).user == old(session).user,
        final(session).partial == old(session).partial,
        final(session).ceremony == old(session).ceremony,
{
    session.oidc_request = Some(state);
}

/// Consume the round-trip state and check the echoed anti-forgery
/// token.
///
/// The stored state is removed whatever happens, so a replayed redirect
/// finds nothing. Without a stored state, or when the echoed token does
/// not match the stored one, the redirect is rejected as
/// unauthenticated; otherwise the state — whose verifier and nonce the
/// caller needs for the token exchange — is handed back.
pub fn begin_finish_auth(session: &mut ClientSession, echoed_state: &String) -> (r: Result<
    AuthState,
    ApiError,
>)
    ensures
        final(session).oidc_request is None,
        final(session).id == old(session).id,
        final(session).user == old(session).user,
        final(session).partial == old(session).partial,
        final(session).ceremony == old(session).ceremony,
        match old(session).oidc_request {
            None => r == Err::<AuthState, ApiError>(ApiError::Unauthenticated),
            Some(state) => if state.csrf_token@ != echoed_state@ {
                r == Err::<AuthState, ApiError>(ApiError::Unauthenticated)
            } else {
                r == Ok::<AuthState, ApiError>(state)
            },
        },
{
    let state = session.oidc_request.take();
    let Some(state) = state else {
        return Err(ApiError::Unauthenticated);
    };
    if !(state.csrf_token == *echoed_state) {
        return Err(ApiError::Unauthenticated);
    }
    Ok(state)
}

/// Log a session in as the user behind a verified federated identity.
///
/// When a federated credential row exists for the provider's
/// identifier, its user is logged in. Otherwise a new internal user is
/// created from the verified claims — under the freshly drawn
/// identifiers — together with its federated credential row, and
/// logged in; an occupied mail, a colliding identifier or a missing
/// session record surfaces as an internal error with nothing changed.
pub fn finish_oidc_login(
    db: &mut Store,
    session: &mut ClientSession,
    oidc_id: String,
    mail: CheckedString<1, 255>,
    display_name: CheckedString<1, 255>,
    new_user_uuid: u128,
    new_oidc_uuid: u128,
) -> (r: Result<(), ApiError>)
    requires
        old(db).wf(),
    ensures
        final(db).wf(),
        match old(db).oidc_by_id(oidc_id@) {
            Some(row) => {
                &&& final(session).id == old(session).id
                &&& rows_unchanged_except_sessions(*old(db), *final(db))
                &&& match old(db).record_by_id(old(session).id) {
                    Some(_) => r == Ok::<(), ApiError>(()) && final(session).user == Some(row.user)
                        && record_points_at(*old(db), *final(db), old(session).id, row.user),
                    None => r == Err::<(), ApiError>(ApiError::InternalServerError)
                        && final(db).sessions@ == old(db).sessions@,
                }
            },
            None => if old(db).user_by_mail(mail@) is Some || old(db).user_by_uuid(new_user_uuid)
                is Some || old(db).oidc_by_user(new_user_uuid) is Some || (exists|i: int|
                0 <= i < old(db).oidc_users@.len() && old(db).oidc_users@[i].uuid
                    == new_oidc_uuid) || old(db).record_by_id(old(session).id) is None {
                &&& r == Err::<(), ApiError>(ApiError::InternalServerError)
                &&& *final(db) == *old(db)
                &&& *final(session) == *old(session)
            } else {
                &&& r == Ok::<(), ApiError>(())
                &&& exists|u: User|
                    final(db).users@ == old(db).users@.push(u) && u.uuid == new_user_uuid
                        && u.mail@ == mail@ && u.display_name@ == display_name@
                &&& exists|o: OidcUser|
                    final(db).oidc_users@ == old(db).oidc_users@.push(o) && o.uuid
                        == new_oidc_uuid && o.user == new_user_uuid && o.oidc_id@ == oidc_id@
                &&& final(db).local_users@ == old(db).local_users@
                &&& final(db).totp_keys@ == old(db).totp_keys@
                &&& final(db).webauthn_keys@ == old(db).webauthn_keys@
                &&& final(db).user_invites@ == old(db).user_invites@
                &&& record_points_at(*old(db), *final(db), old(session).id, new_user_uuid)
                &&& final(session).user == Some(new_user_uuid)
                &&& final(session).id == old(session).id
            },
        },
{
    if let Some(oi) = db.find_oidc_by_id(&oidc_id) {
        let user_uuid = db.oidc_users[oi].user;
        return match set_logged_in(db, session, user_uuid) {
            Ok(()) => Ok(()),
            Err(e) => Err(e),
        };
    }
    if db.find_user_by_mail(mail.as_string()).is_some() {
        return Err(ApiError::InternalServerError);
    }
    if db.find_user_by_uuid(new_user_uuid).is_some() {
        return Err(ApiError::InternalServerError);
    }
    if db.find_oidc_by_user(new_user_uuid).is_some() {
        return Err(ApiError::InternalServerError);
    }
    let mut oidc_uuid_taken = false;
    let n = db.oidc_users.len();
    for i in 0..n
        invariant
            n == db.oidc_users@.len(),
            oidc_uuid_taken == exists|j: int|
                0 <= j < i && db.oidc_users@[j].uuid == new_oidc_uuid,
    {
        if db.oidc_users[i].uuid == new_oidc_uuid {
            oidc_uuid_taken = true;
        }
    }
    if oidc_uuid_taken {
        return Err(ApiError::InternalServerError);
    }
    if db.find_record_by_id(session.id).is_none() {
        return Err(ApiError::InternalServerError);
    }

    match User::create(
        db,
        mail,
        display_name,
        UserLanguage::EN,
        UserPermissions::Internal,
        new_user_uuid,
    ) {
        Ok(_) => (),
        Err(_) => { return Err(ApiError::InternalServerError) },
    }
    db.oidc_users.push(OidcUser { uuid: new_oidc_uuid, user: new_user_uuid, oidc_id });
    proof {
        let news = db.oidc_users@;
        let last = news.len() - 1;
        assert(news[last].uuid == new_oidc_uuid && news[last].user == new_user_uuid);
        assert(db.wf());
    }
    match set_logged_in(db, session, new_user_uuid) {
        Ok(()) => Ok(()),
        Err(_) => Err(ApiError::InternalServerError),
    }
}

} // verus!
