//! The transient, per-client session and what it stores: the
//! authenticated user, the time-bounded partial-authentication marker and
//! the single-use ceremony state.

use vstd::prelude::*;

verus! {

/// How long a partial-authentication marker stays valid, in seconds.
pub const MFA_TIMEOUT_SECS: u64 = 600;

/// The marker left between a successful first factor and the required
/// second factor: the local user it targets and when it was created.
///
/// At most one marker is live per client session; a new first-factor
/// success overwrites any previous one.
#[derive(Debug, Clone, Copy, PartialEq, Eq, Structural)]
pub struct PartialAuthMarker {
    /// When the first factor succeeded, in seconds.
    pub created_at: u64,
    /// The local user which still has to present its second factor.
    pub local_user: u128,
}

impl PartialAuthMarker {
    /// Whether the marker is still within its time window at `now`.
    ///
    /// The boundary is hard: the marker is rejected exactly when more
    /// than [`MFA_TIMEOUT_SECS`] have passed since its creation. A clock
    /// that reads earlier than the creation time leaves the marker live.
    pub open spec fn live_at(self, now: u64) -> bool {
        !(now > self.created_at && now - self.created_at > MFA_TIMEOUT_SECS)
    }
}

/// The partial-authentication window is a hard boundary: a marker is
/// live at `now` exactly up to the timeout after its creation, the
/// boundary instant included, and dead at every later instant —
/// whatever else is presented.
pub proof fn lemma_marker_hard_boundary(marker: PartialAuthMarker, now: u64)
    ensures
        marker.live_at(now) <==> now <= marker.created_at + MFA_TIMEOUT_SECS,
{
}

/// A marker freshly created at its creation time stays live at every
/// instant within the window; in particular one second before the
/// timeout elapses a second factor is still accepted, and one second
/// after it no longer is.
pub proof fn lemma_marker_window(marker: PartialAuthMarker, later: u64)
    requires
        later <= marker.created_at + MFA_TIMEOUT_SECS,
    ensures
        marker.live_at(later),
{
}

/// An in-flight ceremony, stored in the client session between its start
/// and its completion.
///
/// A ceremony is single-use: taking it out of the session removes it, so
/// a repeated completion attempt finds nothing.
#[derive(Debug, Clone, PartialEq, Eq)]
pub enum CeremonyState {
    /// A WebAuthn authentication ceremony: the client proves possession
    /// of a registered key of `local_user`.
    Authentication {
        /// Whether the ceremony runs against the attested keys only
        /// (single-factor login) or all keys (second factor).
        attested: bool,
        /// The local user logging in.
        local_user: u128,
        /// The opaque challenge state of the ceremony backend.
        challenge: Vec<u8>,
    },
    /// A WebAuthn registration ceremony: the client registers a new key
    /// for an existing local user.
    Registration {
        /// Whether an attested key is being registered.
        attested: bool,
        /// The local user registering the key.
        local_user: u128,
        /// The label to give to the new key.
        label: String,
        /// The opaque challenge state of the ceremony backend.
        challenge: Vec<u8>,
    },
    /// An invite-acceptance ceremony: a new user accepts its invite by
    /// registering an attested key.
    InviteAcceptance {
        /// The uuid the new user will be created under.
        user_uuid: u128,
        /// The invite being accepted.
        invite_uuid: u128,
        /// The label to give to the new key.
        label: String,
        /// The opaque challenge state of the ceremony backend.
        challenge: Vec<u8>,
    },
}

/// The state stored by a federated login between its redirect and the
/// provider's answer.
#[derive(Debug, Clone, PartialEq, Eq)]
pub struct AuthState {
    /// The anti-forgery token the provider must echo.
    pub csrf_token: String,
    /// The proof-key verifier for the code exchange.
    pub pkce_code_verifier: String,
    /// The nonce bound into the identity token.
    pub nonce: String,
}

/// The transient, per-client session.
///
/// `user` is the authenticated identity; `partial` the marker between
/// the factors; `ceremony` the single in-flight ceremony; and
/// `oidc_request` the state of a federated login round trip. The
/// session's authentication state is read off these fields by
/// [`ClientSession::auth_state`].
#[derive(Debug, Clone)]
pub struct ClientSession {
    /// The stable identifier of the session, matching the persisted
    /// session record.
    pub id: u128,
    /// The user the session is authenticated as.
    pub user: Option<u128>,
    /// The live partial-authentication marker, if any.
    pub partial: Option<PartialAuthMarker>,
    /// The in-flight ceremony, if any.
    pub ceremony: Option<CeremonyState>,
    /// The stored state of a federated login round trip, if any.
    pub oidc_request: Option<AuthState>,
}

/// The authentication state of a client session, at a given time.
#[derive(Debug, Clone, Copy, PartialEq, Eq, Structural)]
pub enum SessionAuthState {
    /// Nobody is logged in.
    Anonymous,
    /// A first factor succeeded; the named local user has until the
    /// marker expires to present a second factor.
    PartiallyAuthenticated {
        /// The local user the marker targets.
        local_user: u128,
        /// When the first factor succeeded.
        started_at: u64,
    },
    /// The session is fully authenticated.
    Authenticated {
        /// The authenticated user.
        user: u128,
    },
}

impl ClientSession {
    /// A fresh, anonymous session under the given identifier.
    pub fn new(id: u128) -> (r: ClientSession)
        ensures
            r.id == id,
            r.user is None,
            r.partial is None,
            r.ceremony is None,
            r.oidc_request is None,
    {
        ClientSession { id, user: None, partial: None, ceremony: None, oidc_request: None }
    }

    /// The session's authentication state at `now`: authenticated when a
    /// user is set, partially authenticated while a live marker exists,
    /// anonymous otherwise.
    pub open spec fn auth_state(self, now: u64) -> SessionAuthState {
        match self.user {
            Some(user) => SessionAuthState::Authenticated { user },
            None => match self.partial {
                Some(marker) => if marker.live_at(now) {
                    SessionAuthState::PartiallyAuthenticated {
                        local_user: marker.local_user,
                        started_at: marker.created_at,
                    }
                } else {
                    SessionAuthState::Anonymous
                },
                None => SessionAuthState::Anonymous,
            },
        }
    }

    /// Take the in-flight ceremony out of the session.
    ///
    /// The ceremony is single-use: after this call the session holds
    /// none, so completing the same ceremony twice finds nothing the
    /// second time.
    pub fn take_ceremony(&mut self) -> (r: Option<CeremonyState>)
        ensures
            r == old(self).ceremony,
            final(self).ceremony is None,
            final(self).id == old(self).id,
            final(self).user == old(self).user,
            final(self).partial == old(self).partial,
            final(self).oidc_request == old(self).oidc_request,
    {
        self.ceremony.take()
    }
}

} // verus!
