//! The data that the service keeps, modelled as plain values.
//!
//! Identifiers are 128-bit values (the wire form is a uuid). The whole
//! persistent state lives in a [`Store`]: users, their local credentials,
//! outstanding invites and the persisted session records. [`Store::wf`]
//! is the store's invariant — every key unique, one local and one
//! federated credential row per user at most — which every operation
//! preserves.

use vstd::prelude::*;

verus! {

use vstd::pervasive::VecAdditionalExecFns;
use crate::strings::CheckedString;

/// The role of a user.
#[derive(Debug, Clone, Copy, PartialEq, Eq, Structural)]
pub enum UserRole {
    Administrator,
    Internal,
}

/// The possible languages of a user.
#[derive(Debug, Clone, Copy, PartialEq, Eq, Structural)]
pub enum UserLanguage {
    EN,
    DE,
}

/// The user's permissions.
#[derive(Debug, Clone, Copy, PartialEq, Eq, Structural)]
pub enum UserPermissions {
    /// Administrators are able to administrate the platform.
    Administrator,
    /// The internal role is assigned to employees.
    Internal,
}

impl UserPermissions {
    /// The role that the permission classification maps to.
    pub open spec fn spec_role(self) -> UserRole {
        match self {
            UserPermissions::Administrator => UserRole::Administrator,
            UserPermissions::Internal => UserRole::Internal,
        }
    }

    /// The role that the permission classification maps to.
    pub fn role(&self) -> (r: UserRole)
        ensures
            r == self.spec_role(),
    {
        match self {
            UserPermissions::Administrator => UserRole::Administrator,
            UserPermissions::Internal => UserRole::Internal,
        }
    }
}

/// A role row; the role's identifying string is its primary key.
#[derive(Debug, Clone, PartialEq, Eq)]
pub struct Role {
    /// The identifying string of the role.
    pub identifier: String,
}

/// The representation of a user.
#[derive(Debug, Clone)]
pub struct User {
    /// Primary key of the user.
    pub uuid: u128,
    /// The name that is used for displaying purposes.
    pub display_name: String,
    /// The preferred language of the user.
    pub preferred_lang: UserLanguage,
    /// The role of the user.
    pub role: UserRole,
    /// The mail of the user; unique across users.
    pub mail: String,
}

/// A user that is identified through a federated identity server.
#[derive(Debug, Clone)]
pub struct OidcUser {
    /// Primary key of the row.
    pub uuid: u128,
    /// The user this credential belongs to.
    pub user: u128,
    /// The identifier provided by the federated identity server.
    pub oidc_id: String,
}

/// A locally authenticated user.
#[derive(Debug, Clone)]
pub struct LocalUser {
    /// Primary key of the row.
    pub uuid: u128,
    /// The user this credential belongs to.
    pub user: u128,
    /// The hashed password, if any; an absent password means the account
    /// is passwordless.
    pub password: Option<String>,
}

/// A TOTP key registered with an authenticator app by the user.
#[derive(Debug, Clone)]
pub struct TotpKey {
    /// Primary key of the row.
    pub uuid: u128,
    /// The local user the key belongs to.
    pub local_user: u128,
    /// A user defined label to identify this key.
    pub label: String,
    /// The shared secret, as raw bytes.
    pub secret: Vec<u8>,
    /// When the key was added, in seconds.
    pub created_at: u64,
}

/// What the service keeps of a registered security key.
///
/// The cryptographic material itself is handled by the WebAuthn backend;
/// the service reads only the credential id.
#[derive(Debug, Clone, PartialEq, Eq)]
pub struct PasskeyData {
    /// The credential id, used to exclude already registered keys from
    /// new registrations.
    pub cred_id: Vec<u8>,
}

/// A stored security key which remembers whether it was attested.
///
/// Attested keys are additionally eligible for single-factor login.
#[derive(Debug, Clone, PartialEq, Eq)]
pub enum MaybeAttestedPasskey {
    NotAttested(PasskeyData),
    Attested(PasskeyData),
}

impl MaybeAttestedPasskey {
    /// Whether the key was attested.
    pub open spec fn is_attested(self) -> bool {
        self is Attested
    }

    /// Access the key's data, dropping the attestation tag.
    pub fn passkey(self) -> (r: PasskeyData)
        ensures
            r == match self {
                MaybeAttestedPasskey::NotAttested(k) => k,
                MaybeAttestedPasskey::Attested(k) => k,
            },
    {
        match self {
            MaybeAttestedPasskey::NotAttested(k) => k,
            MaybeAttestedPasskey::Attested(k) => k,
        }
    }

    /// Access the key's data only when it was attested.
    pub fn attested(self) -> (r: Option<PasskeyData>)
        ensures
            r == match self {
                MaybeAttestedPasskey::NotAttested(_) => None::<PasskeyData>,
                MaybeAttestedPasskey::Attested(k) => Some(k),
            },
    {
        match self {
            MaybeAttestedPasskey::NotAttested(_) => None,
            MaybeAttestedPasskey::Attested(k) => Some(k),
        }
    }
}

/// A WebAuthn key registered by the user.
#[derive(Debug, Clone)]
pub struct WebAuthnKey {
    /// Primary key of the row.
    pub uuid: u128,
    /// The local user the key belongs to.
    pub local_user: u128,
    /// A user defined label to identify this key.
    pub label: String,
    /// The stored key.
    pub key: MaybeAttestedPasskey,
    /// When the key was added, in seconds.
    pub created_at: u64,
}

/// An outstanding invite link for a new local user to register.
#[derive(Debug, Clone)]
pub struct UserInvite {
    /// Primary key of the invite.
    pub uuid: u128,
    /// The display name to set for the new user.
    pub display_name: String,
    /// The preferred language to set for the new user.
    pub preferred_lang: UserLanguage,
    /// The mail to set for the new user; unique across open invites.
    pub email: String,
    /// The permissions to set for the new user.
    pub permissions: UserPermissions,
    /// Until when the invite is valid, in seconds.
    pub expires_at: u64,
    /// When the invite was created, in seconds.
    pub created_at: u64,
}

/// A persisted session record: the stable session identifier together
/// with the user the session is authenticated as, if any.
#[derive(Debug, Clone, Copy, PartialEq, Eq, Structural)]
pub struct SessionRecord {
    /// The stable session identifier.
    pub id: u128,
    /// The user the session is authenticated as.
    pub user: Option<u128>,
}

/// The persistent state of the service.
pub struct Store {
    /// All users.
    pub users: Vec<User>,
    /// Federated credential rows, at most one per user.
    pub oidc_users: Vec<OidcUser>,
    /// Local credential rows, at most one per user.
    pub local_users: Vec<LocalUser>,
    /// Registered TOTP keys.
    pub totp_keys: Vec<TotpKey>,
    /// Registered WebAuthn keys.
    pub webauthn_keys: Vec<WebAuthnKey>,
    /// Outstanding user invites.
    pub user_invites: Vec<UserInvite>,
    /// Persisted session records.
    pub sessions: Vec<SessionRecord>,
}

impl Store {
    /// The store's invariant: primary keys are unique, mails are unique
    /// across users and across open invites, and each user has at most
    /// one local and one federated credential row.
    pub open spec fn wf(self) -> bool {
        &&& forall|i: int, j: int|
            0 <= i < j < self.users@.len() ==> self.users@[i].uuid != self.users@[j].uuid
                && self.users@[i].mail@ != self.users@[j].mail@
        &&& forall|i: int, j: int|
            0 <= i < j < self.oidc_users@.len() ==> self.oidc_users@[i].uuid
                != self.oidc_users@[j].uuid && self.oidc_users@[i].user != self.oidc_users@[j].user
                && self.oidc_users@[i].oidc_id@ != self.oidc_users@[j].oidc_id@
        &&& forall|i: int, j: int|
            0 <= i < j < self.local_users@.len() ==> self.local_users@[i].uuid
                != self.local_users@[j].uuid && self.local_users@[i].user
                != self.local_users@[j].user
        &&& forall|i: int, j: int|
            0 <= i < j < self.totp_keys@.len() ==> self.totp_keys@[i].uuid
                != self.totp_keys@[j].uuid
        &&& forall|i: int, j: int|
            0 <= i < j < self.webauthn_keys@.len() ==> self.webauthn_keys@[i].uuid
                != self.webauthn_keys@[j].uuid
        &&& forall|i: int, j: int|
            0 <= i < j < self.user_invites@.len() ==> self.user_invites@[i].uuid
                != self.user_invites@[j].uuid && self.user_invites@[i].email@
                != self.user_invites@[j].email@
        &&& forall|i: int, j: int|
            0 <= i < j < self.sessions@.len() ==> self.sessions@[i].id != self.sessions@[j].id
    }

    /// An empty store.
    pub fn new() -> (r: Store)
        ensures
            r.wf(),
            r.users@.len() == 0,
            r.oidc_users@.len() == 0,
            r.local_users@.len() == 0,
            r.totp_keys@.len() == 0,
            r.webauthn_keys@.len() == 0,
            r.user_invites@.len() == 0,
            r.sessions@.len() == 0,
    {
        Store {
            users: Vec::new(),
            oidc_users: Vec::new(),
            local_users: Vec::new(),
            totp_keys: Vec::new(),
            webauthn_keys: Vec::new(),
            user_invites: Vec::new(),
            sessions: Vec::new(),
        }
    }


    /// Two user rows with the same uuid are the same row.
    pub proof fn lemma_user_uuid_unique(self, i: int, j: int)
        requires
            self.wf(),
            0 <= i < self.users@.len(),
            0 <= j < self.users@.len(),
            self.users@[i].uuid == self.users@[j].uuid,
        ensures
            i == j,
    {
        if i < j {
            assert(self.users@[i].uuid != self.users@[j].uuid);
        } else if j < i {
            assert(self.users@[j].uuid != self.users@[i].uuid);
        }
    }

    /// Two user rows with the same mail are the same row.
    pub proof fn lemma_user_mail_unique(self, i: int, j: int)
        requires
            self.wf(),
            0 <= i < self.users@.len(),
            0 <= j < self.users@.len(),
            self.users@[i].mail@ == self.users@[j].mail@,
        ensures
            i == j,
    {
        if i < j {
            assert(self.users@[i].mail@ != self.users@[j].mail@);
        } else if j < i {
            assert(self.users@[j].mail@ != self.users@[i].mail@);
        }
    }

    /// Two local credential rows with the same uuid are the same row.
    pub proof fn lemma_local_uuid_unique(self, i: int, j: int)
        requires
            self.wf(),
            0 <= i < self.local_users@.len(),
            0 <= j < self.local_users@.len(),
            self.local_users@[i].uuid == self.local_users@[j].uuid,
        ensures
            i == j,
    {
        if i < j {
            assert(self.local_users@[i].uuid != self.local_users@[j].uuid);
        } else if j < i {
            assert(self.local_users@[j].uuid != self.local_users@[i].uuid);
        }
    }

    /// Two local credential rows for the same user are the same row.
    pub proof fn lemma_local_user_unique(self, i: int, j: int)
        requires
            self.wf(),
            0 <= i < self.local_users@.len(),
            0 <= j < self.local_users@.len(),
            self.local_users@[i].user == self.local_users@[j].user,
        ensures
            i == j,
    {
        if i < j {
            assert(self.local_users@[i].user != self.local_users@[j].user);
        } else if j < i {
            assert(self.local_users@[j].user != self.local_users@[i].user);
        }
    }

    /// Two federated credential rows for the same user are the same row.
    pub proof fn lemma_oidc_user_unique(self, i: int, j: int)
        requires
            self.wf(),
            0 <= i < self.oidc_users@.len(),
            0 <= j < self.oidc_users@.len(),
            self.oidc_users@[i].user == self.oidc_users@[j].user,
        ensures
            i == j,
    {
        if i < j {
            assert(self.oidc_users@[i].user != self.oidc_users@[j].user);
        } else if j < i {
            assert(self.oidc_users@[j].user != self.oidc_users@[i].user);
        }
    }

    /// Two TOTP keys with the same uuid are the same key.
    pub proof fn lemma_totp_uuid_unique(self, i: int, j: int)
        requires
            self.wf(),
            0 <= i < self.totp_keys@.len(),
            0 <= j < self.totp_keys@.len(),
            self.totp_keys@[i].uuid == self.totp_keys@[j].uuid,
        ensures
            i == j,
    {
        if i < j {
            assert(self.totp_keys@[i].uuid != self.totp_keys@[j].uuid);
        } else if j < i {
            assert(self.totp_keys@[j].uuid != self.totp_keys@[i].uuid);
        }
    }

    /// Two WebAuthn keys with the same uuid are the same key.
    pub proof fn lemma_webauthn_uuid_unique(self, i: int, j: int)
        requires
            self.wf(),
            0 <= i < self.webauthn_keys@.len(),
            0 <= j < self.webauthn_keys@.len(),
            self.webauthn_keys@[i].uuid == self.webauthn_keys@[j].uuid,
        ensures
            i == j,
    {
        if i < j {
            assert(self.webauthn_keys@[i].uuid != self.webauthn_keys@[j].uuid);
        } else if j < i {
            assert(self.webauthn_keys@[j].uuid != self.webauthn_keys@[i].uuid);
        }
    }

    /// Two federated credential rows with the same provider identifier
    /// are the same row.
    pub proof fn lemma_oidc_id_unique(self, i: int, j: int)
        requires
            self.wf(),
            0 <= i < self.oidc_users@.len(),
            0 <= j < self.oidc_users@.len(),
            self.oidc_users@[i].oidc_id@ == self.oidc_users@[j].oidc_id@,
        ensures
            i == j,
    {
        if i < j {
            assert(self.oidc_users@[i].oidc_id@ != self.oidc_users@[j].oidc_id@);
        } else if j < i {
            assert(self.oidc_users@[j].oidc_id@ != self.oidc_users@[i].oidc_id@);
        }
    }

    /// Two invites with the same uuid are the same invite.
    pub proof fn lemma_invite_uuid_unique(self, i: int, j: int)
        requires
            self.wf(),
            0 <= i < self.user_invites@.len(),
            0 <= j < self.user_invites@.len(),
            self.user_invites@[i].uuid == self.user_invites@[j].uuid,
        ensures
            i == j,
    {
        if i < j {
            assert(self.user_invites@[i].uuid != self.user_invites@[j].uuid);
        } else if j < i {
            assert(self.user_invites@[j].uuid != self.user_invites@[i].uuid);
        }
    }

    /// Two invites with the same mail are the same invite.
    pub proof fn lemma_invite_email_unique(self, i: int, j: int)
        requires
            self.wf(),
            0 <= i < self.user_invites@.len(),
            0 <= j < self.user_invites@.len(),
            self.user_invites@[i].email@ == self.user_invites@[j].email@,
        ensures
            i == j,
    {
        if i < j {
            assert(self.user_invites@[i].email@ != self.user_invites@[j].email@);
        } else if j < i {
            assert(self.user_invites@[j].email@ != self.user_invites@[i].email@);
        }
    }

    /// Two session records with the same identifier are the same record.
    pub proof fn lemma_record_id_unique(self, i: int, j: int)
        requires
            self.wf(),
            0 <= i < self.sessions@.len(),
            0 <= j < self.sessions@.len(),
            self.sessions@[i].id == self.sessions@[j].id,
        ensures
            i == j,
    {
        if i < j {
            assert(self.sessions@[i].id != self.sessions@[j].id);
        } else if j < i {
            assert(self.sessions@[j].id != self.sessions@[i].id);
        }
    }

    /// The user with the given uuid, if any.
    pub open spec fn user_by_uuid(self, uuid: u128) -> Option<User> {
        if exists|i: int| 0 <= i < self.users@.len() && self.users@[i].uuid == uuid {
            Some(
                self.users@[choose|i: int|
                    0 <= i < self.users@.len() && self.users@[i].uuid == uuid],
            )
        } else {
            None
        }
    }

    /// The user with the given mail, if any.
    pub open spec fn user_by_mail(self, mail: Seq<char>) -> Option<User> {
        if exists|i: int| 0 <= i < self.users@.len() && self.users@[i].mail@ == mail {
            Some(
                self.users@[choose|i: int|
                    0 <= i < self.users@.len() && self.users@[i].mail@ == mail],
            )
        } else {
            None
        }
    }

    /// The local credential row with the given primary key, if any.
    pub open spec fn local_by_uuid(self, uuid: u128) -> Option<LocalUser> {
        if exists|i: int| 0 <= i < self.local_users@.len() && self.local_users@[i].uuid == uuid {
            Some(
                self.local_users@[choose|i: int|
                    0 <= i < self.local_users@.len() && self.local_users@[i].uuid == uuid],
            )
        } else {
            None
        }
    }

    /// The local credential row of the given user, if any.
    pub open spec fn local_by_user(self, user: u128) -> Option<LocalUser> {
        if exists|i: int| 0 <= i < self.local_users@.len() && self.local_users@[i].user == user {
            Some(
                self.local_users@[choose|i: int|
                    0 <= i < self.local_users@.len() && self.local_users@[i].user == user],
            )
        } else {
            None
        }
    }

    /// The local credential row of the user with the given mail, if any.
    pub open spec fn local_by_mail(self, mail: Seq<char>) -> Option<LocalUser> {
        match self.user_by_mail(mail) {
            Some(user) => self.local_by_user(user.uuid),
            None => None,
        }
    }

    /// The federated credential row of the given user, if any.
    pub open spec fn oidc_by_user(self, user: u128) -> Option<OidcUser> {
        if exists|i: int| 0 <= i < self.oidc_users@.len() && self.oidc_users@[i].user == user {
            Some(
                self.oidc_users@[choose|i: int|
                    0 <= i < self.oidc_users@.len() && self.oidc_users@[i].user == user],
            )
        } else {
            None
        }
    }

    /// The federated credential row with the given provider identifier,
    /// if any.
    pub open spec fn oidc_by_id(self, oidc_id: Seq<char>) -> Option<OidcUser> {
        if exists|i: int| 0 <= i < self.oidc_users@.len() && self.oidc_users@[i].oidc_id@
            == oidc_id {
            Some(
                self.oidc_users@[choose|i: int|
                    0 <= i < self.oidc_users@.len() && self.oidc_users@[i].oidc_id@ == oidc_id],
            )
        } else {
            None
        }
    }

    /// The invite with the given primary key, if any.
    pub open spec fn invite_by_uuid(self, uuid: u128) -> Option<UserInvite> {
        if exists|i: int| 0 <= i < self.user_invites@.len() && self.user_invites@[i].uuid == uuid {
            Some(
                self.user_invites@[choose|i: int|
                    0 <= i < self.user_invites@.len() && self.user_invites@[i].uuid == uuid],
            )
        } else {
            None
        }
    }

    /// The open invite with the given mail, if any.
    pub open spec fn invite_by_email(self, email: Seq<char>) -> Option<UserInvite> {
        if exists|i: int| 0 <= i < self.user_invites@.len() && self.user_invites@[i].email@
            == email {
            Some(
                self.user_invites@[choose|i: int|
                    0 <= i < self.user_invites@.len() && self.user_invites@[i].email@ == email],
            )
        } else {
            None
        }
    }

    /// The session record with the given identifier, if any.
    pub open spec fn record_by_id(self, id: u128) -> Option<SessionRecord> {
        if exists|i: int| 0 <= i < self.sessions@.len() && self.sessions@[i].id == id {
            Some(
                self.sessions@[choose|i: int|
                    0 <= i < self.sessions@.len() && self.sessions@[i].id == id],
            )
        } else {
            None
        }
    }

    /// Whether the given local user has at least one TOTP key.
    pub open spec fn has_totp(self, local_user: u128) -> bool {
        exists|i: int|
            0 <= i < self.totp_keys@.len() && self.totp_keys@[i].local_user == local_user
    }

    /// Whether the given local user has at least one WebAuthn key.
    pub open spec fn has_webauthn(self, local_user: u128) -> bool {
        exists|i: int|
            0 <= i < self.webauthn_keys@.len() && self.webauthn_keys@[i].local_user == local_user
    }

    /// Whether the given local user has at least one attested WebAuthn
    /// key, and so can log in without a password.
    pub open spec fn has_attested_webauthn(self, local_user: u128) -> bool {
        exists|i: int|
            0 <= i < self.webauthn_keys@.len() && self.webauthn_keys@[i].local_user == local_user
                && self.webauthn_keys@[i].key is Attested
    }

    /// The TOTP keys of the given local user, in insertion order.
    pub open spec fn totp_keys_of(self, local_user: u128) -> Seq<TotpKey> {
        totp_keys_in(self.totp_keys@, local_user)
    }

    /// The WebAuthn keys of the given local user, in insertion order.
    pub open spec fn webauthn_keys_of(self, local_user: u128) -> Seq<WebAuthnKey> {
        webauthn_keys_in(self.webauthn_keys@, local_user)
    }

    /// Find the index of the user with the given mail.
    pub fn find_user_by_mail(&self, mail: &String) -> (r: Option<usize>)
        requires
            self.wf(),
        ensures
            match r {
                Some(i) => i < self.users@.len() && self.users@[i as int].mail@ == mail@
                    && self.user_by_mail(mail@) == Some(self.users@[i as int]),
                None => self.user_by_mail(mail@) is None,
            },
    {
        let n = self.users.len();
        for i in 0..n
            invariant
                n == self.users@.len(),
                self.wf(),
                forall|j: int| 0 <= j < i ==> self.users@[j].mail@ != mail@,
        {
            if self.users[i].mail == *mail {
                proof {
                    assert(exists|k: int|
                        0 <= k < self.users@.len() && self.users@[k].mail@ == mail@);
                    let w = choose|k: int|
                        0 <= k < self.users@.len() && self.users@[k].mail@ == mail@;
                    self.lemma_user_mail_unique(w, i as int);
                }
                return Some(i);
            }
        }
        None
    }

    /// Find the index of the user with the given uuid.
    pub fn find_user_by_uuid(&self, uuid: u128) -> (r: Option<usize>)
        requires
            self.wf(),
        ensures
            match r {
                Some(i) => i < self.users@.len() && self.users@[i as int].uuid == uuid
                    && self.user_by_uuid(uuid) == Some(self.users@[i as int]),
                None => self.user_by_uuid(uuid) is None,
            },
    {
        let n = self.users.len();
        for i in 0..n
            invariant
                n == self.users@.len(),
                self.wf(),
                forall|j: int| 0 <= j < i ==> self.users@[j].uuid != uuid,
        {
            if self.users[i].uuid == uuid {
                proof {
                    assert(exists|k: int|
                        0 <= k < self.users@.len() && self.users@[k].uuid == uuid);
                    let w = choose|k: int|
                        0 <= k < self.users@.len() && self.users@[k].uuid == uuid;
                    self.lemma_user_uuid_unique(w, i as int);
                }
                return Some(i);
            }
        }
        None
    }

    /// Find the index of the local credential row with the given primary
    /// key.
    pub fn find_local_by_uuid(&self, uuid: u128) -> (r: Option<usize>)
        requires
            self.wf(),
        ensures
            match r {
                Some(i) => i < self.local_users@.len() && self.local_users@[i as int].uuid == uuid
                    && self.local_by_uuid(uuid) == Some(self.local_users@[i as int]),
                None => self.local_by_uuid(uuid) is None,
            },
    {
        let n = self.local_users.len();
        for i in 0..n
            invariant
                n == self.local_users@.len(),
                self.wf(),
                forall|j: int| 0 <= j < i ==> self.local_users@[j].uuid != uuid,
        {
            if self.local_users[i].uuid == uuid {
                proof {
                    assert(exists|k: int|
                        0 <= k < self.local_users@.len() && self.local_users@[k].uuid == uuid);
                    let w = choose|k: int|
                        0 <= k < self.local_users@.len() && self.local_users@[k].uuid == uuid;
                    self.lemma_local_uuid_unique(w, i as int);
                }
                return Some(i);
            }
        }
        None
    }

    /// Find the index of the local credential row of the given user.
    pub fn find_local_by_user(&self, user: u128) -> (r: Option<usize>)
        requires
            self.wf(),
        ensures
            match r {
                Some(i) => i < self.local_users@.len() && self.local_users@[i as int].user == user
                    && self.local_by_user(user) == Some(self.local_users@[i as int]),
                None => self.local_by_user(user) is None,
            },
    {
        let n = self.local_users.len();
        for i in 0..n
            invariant
                n == self.local_users@.len(),
                self.wf(),
                forall|j: int| 0 <= j < i ==> self.local_users@[j].user != user,
        {
            if self.local_users[i].user == user {
                proof {
                    assert(exists|k: int|
                        0 <= k < self.local_users@.len() && self.local_users@[k].user == user);
                    let w = choose|k: int|
                        0 <= k < self.local_users@.len() && self.local_users@[k].user == user;
                    self.lemma_local_user_unique(w, i as int);
                }
                return Some(i);
            }
        }
        None
    }

    /// Find the index of the federated credential row of the given user.
    pub fn find_oidc_by_user(&self, user: u128) -> (r: Option<usize>)
        requires
            self.wf(),
        ensures
            match r {
                Some(i) => i < self.oidc_users@.len() && self.oidc_users@[i as int].user == user
                    && self.oidc_by_user(user) == Some(self.oidc_users@[i as int]),
                None => self.oidc_by_user(user) is None,
            },
    {
        let n = self.oidc_users.len();
        for i in 0..n
            invariant
                n == self.oidc_users@.len(),
                self.wf(),
                forall|j: int| 0 <= j < i ==> self.oidc_users@[j].user != user,
        {
            if self.oidc_users[i].user == user {
                proof {
                    assert(exists|k: int|
                        0 <= k < self.oidc_users@.len() && self.oidc_users@[k].user == user);
                    let w = choose|k: int|
                        0 <= k < self.oidc_users@.len() && self.oidc_users@[k].user == user;
                    self.lemma_oidc_user_unique(w, i as int);
                }
                return Some(i);
            }
        }
        None
    }

    /// Find the index of the invite with the given primary key.
    pub fn find_invite_by_uuid(&self, uuid: u128) -> (r: Option<usize>)
        requires
            self.wf(),
        ensures
            match r {
                Some(i) => i < self.user_invites@.len() && self.user_invites@[i as int].uuid
                    == uuid && self.invite_by_uuid(uuid) == Some(self.user_invites@[i as int]),
                None => self.invite_by_uuid(uuid) is None,
            },
    {
        let n = self.user_invites.len();
        for i in 0..n
            invariant
                n == self.user_invites@.len(),
                self.wf(),
                forall|j: int| 0 <= j < i ==> self.user_invites@[j].uuid != uuid,
        {
            if self.user_invites[i].uuid == uuid {
                proof {
                    assert(exists|k: int|
                        0 <= k < self.user_invites@.len() && self.user_invites@[k].uuid == uuid);
                    let w = choose|k: int|
                        0 <= k < self.user_invites@.len() && self.user_invites@[k].uuid == uuid;
                    self.lemma_invite_uuid_unique(w, i as int);
                }
                return Some(i);
            }
        }
        None
    }

    /// Find the index of the federated credential row with the given
    /// provider identifier.
    pub fn find_oidc_by_id(&self, oidc_id: &String) -> (r: Option<usize>)
        requires
            self.wf(),
        ensures
            match r {
                Some(i) => i < self.oidc_users@.len() && self.oidc_users@[i as int].oidc_id@
                    == oidc_id@ && self.oidc_by_id(oidc_id@) == Some(self.oidc_users@[i as int]),
                None => self.oidc_by_id(oidc_id@) is None,
            },
    {
        let n = self.oidc_users.len();
        for i in 0..n
            invariant
                n == self.oidc_users@.len(),
                self.wf(),
                forall|j: int| 0 <= j < i ==> self.oidc_users@[j].oidc_id@ != oidc_id@,
        {
            if self.oidc_users[i].oidc_id == *oidc_id {
                proof {
                    assert(exists|k: int|
                        0 <= k < self.oidc_users@.len() && self.oidc_users@[k].oidc_id@
                            == oidc_id@);
                    let w = choose|k: int|
                        0 <= k < self.oidc_users@.len() && self.oidc_users@[k].oidc_id@ == oidc_id@;
                    self.lemma_oidc_id_unique(w, i as int);
                }
                return Some(i);
            }
        }
        None
    }

    /// Find the index of the open invite with the given mail.
    pub fn find_invite_by_email(&self, email: &String) -> (r: Option<usize>)
        requires
            self.wf(),
        ensures
            match r {
                Some(i) => i < self.user_invites@.len() && self.user_invites@[i as int].email@
                    == email@ && self.invite_by_email(email@) == Some(
                    self.user_invites@[i as int],
                ),
                None => self.invite_by_email(email@) is None,
            },
    {
        let n = self.user_invites.len();
        for i in 0..n
            invariant
                n == self.user_invites@.len(),
                self.wf(),
                forall|j: int| 0 <= j < i ==> self.user_invites@[j].email@ != email@,
        {
            if self.user_invites[i].email == *email {
                proof {
                    assert(exists|k: int|
                        0 <= k < self.user_invites@.len() && self.user_invites@[k].email@
                            == email@);
                    let w = choose|k: int|
                        0 <= k < self.user_invites@.len() && self.user_invites@[k].email@
                            == email@;
                    self.lemma_invite_email_unique(w, i as int);
                }
                return Some(i);
            }
        }
        None
    }

    /// Find the index of the session record with the given identifier.
    pub fn find_record_by_id(&self, id: u128) -> (r: Option<usize>)
        requires
            self.wf(),
        ensures
            match r {
                Some(i) => i < self.sessions@.len() && self.sessions@[i as int].id == id
                    && self.record_by_id(id) == Some(self.sessions@[i as int]),
                None => self.record_by_id(id) is None,
            },
    {
        let n = self.sessions.len();
        for i in 0..n
            invariant
                n == self.sessions@.len(),
                self.wf(),
                forall|j: int| 0 <= j < i ==> self.sessions@[j].id != id,
        {
            if self.sessions[i].id == id {
                proof {
                    assert(exists|k: int|
                        0 <= k < self.sessions@.len() && self.sessions@[k].id == id);
                    let w = choose|k: int|
                        0 <= k < self.sessions@.len() && self.sessions@[k].id == id;
                    self.lemma_record_id_unique(w, i as int);
                }
                return Some(i);
            }
        }
        None
    }

    /// Whether the given local user has at least one TOTP key.
    pub fn check_has_totp(&self, local_user: u128) -> (r: bool)
        ensures
            r == self.has_totp(local_user),
    {
        let n = self.totp_keys.len();
        for i in 0..n
            invariant
                n == self.totp_keys@.len(),
                forall|j: int| 0 <= j < i ==> self.totp_keys@[j].local_user != local_user,
        {
            if self.totp_keys[i].local_user == local_user {
                return true;
            }
        }
        false
    }

    /// Whether the given local user has at least one WebAuthn key.
    pub fn check_has_webauthn(&self, local_user: u128) -> (r: bool)
        ensures
            r == self.has_webauthn(local_user),
    {
        let n = self.webauthn_keys.len();
        for i in 0..n
            invariant
                n == self.webauthn_keys@.len(),
                forall|j: int| 0 <= j < i ==> self.webauthn_keys@[j].local_user != local_user,
        {
            if self.webauthn_keys[i].local_user == local_user {
                return true;
            }
        }
        false
    }

    /// Whether the given local user has at least one attested WebAuthn
    /// key.
    pub fn check_has_attested_webauthn(&self, local_user: u128) -> (r: bool)
        ensures
            r == self.has_attested_webauthn(local_user),
    {
        let n = self.webauthn_keys.len();
        for i in 0..n
            invariant
                n == self.webauthn_keys@.len(),
                forall|j: int|
                    0 <= j < i ==> !(self.webauthn_keys@[j].local_user == local_user
                        && self.webauthn_keys@[j].key is Attested),
        {
            let is_attested = match &self.webauthn_keys[i].key {
                MaybeAttestedPasskey::Attested(_) => true,
                MaybeAttestedPasskey::NotAttested(_) => false,
            };
            if self.webauthn_keys[i].local_user == local_user && is_attested {
                return true;
            }
        }
        false
    }

    /// Find the index of the TOTP key with the given primary key.
    pub fn find_totp_by_uuid(&self, uuid: u128) -> (r: Option<usize>)
        ensures
            match r {
                Some(i) => i < self.totp_keys@.len() && self.totp_keys@[i as int].uuid == uuid,
                None => forall|j: int|
                    0 <= j < self.totp_keys@.len() ==> self.totp_keys@[j].uuid != uuid,
            },
    {
        let n = self.totp_keys.len();
        for i in 0..n
            invariant
                n == self.totp_keys@.len(),
                forall|j: int| 0 <= j < i ==> self.totp_keys@[j].uuid != uuid,
        {
            if self.totp_keys[i].uuid == uuid {
                return Some(i);
            }
        }
        None
    }

    /// Find the index of the WebAuthn key with the given primary key.
    pub fn find_webauthn_by_uuid(&self, uuid: u128) -> (r: Option<usize>)
        ensures
            match r {
                Some(i) => i < self.webauthn_keys@.len() && self.webauthn_keys@[i as int].uuid
                    == uuid,
                None => forall|j: int|
                    0 <= j < self.webauthn_keys@.len() ==> self.webauthn_keys@[j].uuid != uuid,
            },
    {
        let n = self.webauthn_keys.len();
        for i in 0..n
            invariant
                n == self.webauthn_keys@.len(),
                forall|j: int| 0 <= j < i ==> self.webauthn_keys@[j].uuid != uuid,
        {
            if self.webauthn_keys[i].uuid == uuid {
                return Some(i);
            }
        }
        None
    }

    /// Create a persisted session record for the identifier if none
    /// exists yet.
    ///
    /// This mirrors the session record coming into being the first time
    /// a client's transport-layer session is touched.
    pub fn touch_session(&mut self, id: u128)
        requires
            old(self).wf(),
        ensures
            final(self).wf(),
            final(self).record_by_id(id) is Some,
            old(self).record_by_id(id) is Some ==> *final(self) == *old(self),
            old(self).record_by_id(id) is None ==> final(self).sessions@ == old(self).sessions@.push(SessionRecord { id, user: None }),
            old(self).record_by_id(id) is None ==> final(self).record_by_id(id) == Some(
                SessionRecord { id, user: None },
            ),
            final(self).users@ == old(self).users@,
            final(self).oidc_users@ == old(self).oidc_users@,
            final(self).local_users@ == old(self).local_users@,
            final(self).totp_keys@ == old(self).totp_keys@,
            final(self).webauthn_keys@ == old(self).webauthn_keys@,
            final(self).user_invites@ == old(self).user_invites@,
    {
        match self.find_record_by_id(id) {
            Some(_) => (),
            None => {
                self.sessions.push(SessionRecord { id, user: None });
                proof {
                    let s = self.sessions@;
                    assert(s[s.len() - 1].id == id);
                }
            },
        }
    }
}

impl Store {
    /// Remove every TOTP key of the given local user; the order of the
    /// surviving keys may change.
    fn remove_totp_keys_of(&mut self, local_user: u128)
        requires
            old(self).wf(),
        ensures
            final(self).wf(),
            final(self).users@ == old(self).users@,
            final(self).oidc_users@ == old(self).oidc_users@,
            final(self).local_users@ == old(self).local_users@,
            final(self).webauthn_keys@ == old(self).webauthn_keys@,
            final(self).user_invites@ == old(self).user_invites@,
            final(self).sessions@ == old(self).sessions@,
            forall|k: int|
                0 <= k < final(self).totp_keys@.len() ==> old(self).totp_keys@.contains(
                    #[trigger] final(self).totp_keys@[k],
                ) && final(self).totp_keys@[k].local_user != local_user,
            forall|j: int|
                0 <= j < old(self).totp_keys@.len() && old(self).totp_keys@[j].local_user
                    != local_user ==> final(self).totp_keys@.contains(
                    #[trigger] old(self).totp_keys@[j],
                ),
    {
        let mut kept: Vec<TotpKey> = Vec::new();
        let ghost olds = self.totp_keys@;
        let ghost mut ksrc: Map<int, int> = Map::empty();
        let ghost mut krev: Map<int, int> = Map::empty();
        let n = self.totp_keys.len();
        let mut i: usize = 0;
        while self.totp_keys.len() > 0
            invariant
                self.users@ == old(self).users@,
                self.oidc_users@ == old(self).oidc_users@,
                self.local_users@ == old(self).local_users@,
                self.webauthn_keys@ == old(self).webauthn_keys@,
                self.user_invites@ == old(self).user_invites@,
                self.sessions@ == old(self).sessions@,
                n == olds.len(),
                olds.len() == i + self.totp_keys@.len(),
                self.totp_keys@ == olds.take(olds.len() - i),
                forall|a: int, b: int| 0 <= a < b < olds.len() ==> olds[a].uuid != olds[b].uuid,
                forall|k: int|
                    0 <= k < kept@.len() ==> olds.len() - i <= #[trigger] ksrc[k] < olds.len()
                        && olds[ksrc[k]] == kept@[k] && olds[ksrc[k]].local_user != local_user,
                forall|j: int|
                    olds.len() - i <= j < olds.len() && olds[j].local_user != local_user ==> 0
                        <= #[trigger] krev[j] < kept@.len() && kept@[krev[j]] == olds[j],
                forall|a: int, b: int|
                    0 <= a < b < kept@.len() ==> kept@[a].uuid != kept@[b].uuid,
            decreases self.totp_keys@.len(),
        {
            let last = self.totp_keys.len() - 1;
            let ghost cur = olds.len() - i - 1;
            let entry = self.totp_keys.remove(last);
            proof {
                assert(entry == olds[cur]);
                assert(self.totp_keys@ =~= olds.take(olds.len() - (i + 1)));
            }
            if entry.local_user != local_user {
                proof {
                    assert forall|k: int| 0 <= k < kept@.len() implies kept@[k].uuid
                        != olds[cur].uuid by {
                        let j = ksrc[k];
                        assert(olds[cur].uuid != olds[j].uuid);
                    }
                }
                kept.push(entry);
                proof {
                    ksrc = ksrc.insert(kept@.len() - 1, cur);
                    krev = krev.insert(cur, kept@.len() - 1);
                    assert(kept@[kept@.len() - 1] == olds[cur]);
                }
            }
            i = i + 1;
        }
        self.totp_keys = kept;
        proof {
            assert forall|k: int| 0 <= k < self.totp_keys@.len() implies old(self).totp_keys@.contains(#[trigger] self.totp_keys@[k]) && self.totp_keys@[k].local_user
                != local_user by {
                assert(old(self).totp_keys@[ksrc[k]] == self.totp_keys@[k]);
            }
            assert forall|j: int|
                0 <= j < old(self).totp_keys@.len() && old(self).totp_keys@[j].local_user
                    != local_user implies self.totp_keys@.contains(
                #[trigger] old(self).totp_keys@[j],
            ) by {
                assert(self.totp_keys@[krev[j]] == old(self).totp_keys@[j]);
            }
        }
    }

    /// Remove every WebAuthn key of the given local user; the order of
    /// the surviving keys may change.
    fn remove_webauthn_keys_of(&mut self, local_user: u128)
        requires
            old(self).wf(),
        ensures
            final(self).wf(),
            final(self).users@ == old(self).users@,
            final(self).oidc_users@ == old(self).oidc_users@,
            final(self).local_users@ == old(self).local_users@,
            final(self).totp_keys@ == old(self).totp_keys@,
            final(self).user_invites@ == old(self).user_invites@,
            final(self).sessions@ == old(self).sessions@,
            forall|k: int|
                0 <= k < final(self).webauthn_keys@.len() ==> old(self).webauthn_keys@.contains(
                    #[trigger] final(self).webauthn_keys@[k],
                ) && final(self).webauthn_keys@[k].local_user != local_user,
            forall|j: int|
                0 <= j < old(self).webauthn_keys@.len() && old(self).webauthn_keys@[j].local_user
                    != local_user ==> final(self).webauthn_keys@.contains(
                    #[trigger] old(self).webauthn_keys@[j],
                ),
    {
        let mut kept: Vec<WebAuthnKey> = Vec::new();
        let ghost olds = self.webauthn_keys@;
        let ghost mut ksrc: Map<int, int> = Map::empty();
        let ghost mut krev: Map<int, int> = Map::empty();
        let n = self.webauthn_keys.len();
        let mut i: usize = 0;
        while self.webauthn_keys.len() > 0
            invariant
                self.users@ == old(self).users@,
                self.oidc_users@ == old(self).oidc_users@,
                self.local_users@ == old(self).local_users@,
                self.totp_keys@ == old(self).totp_keys@,
                self.user_invites@ == old(self).user_invites@,
                self.sessions@ == old(self).sessions@,
                n == olds.len(),
                olds.len() == i + self.webauthn_keys@.len(),
                self.webauthn_keys@ == olds.take(olds.len() - i),
                forall|a: int, b: int| 0 <= a < b < olds.len() ==> olds[a].uuid != olds[b].uuid,
                forall|k: int|
                    0 <= k < kept@.len() ==> olds.len() - i <= #[trigger] ksrc[k] < olds.len()
                        && olds[ksrc[k]] == kept@[k] && olds[ksrc[k]].local_user != local_user,
                forall|j: int|
                    olds.len() - i <= j < olds.len() && olds[j].local_user != local_user ==> 0
                        <= #[trigger] krev[j] < kept@.len() && kept@[krev[j]] == olds[j],
                forall|a: int, b: int|
                    0 <= a < b < kept@.len() ==> kept@[a].uuid != kept@[b].uuid,
            decreases self.webauthn_keys@.len(),
        {
            let last = self.webauthn_keys.len() - 1;
            let ghost cur = olds.len() - i - 1;
            let entry = self.webauthn_keys.remove(last);
            proof {
                assert(entry == olds[cur]);
                assert(self.webauthn_keys@ =~= olds.take(olds.len() - (i + 1)));
            }
            if entry.local_user != local_user {
                proof {
                    assert forall|k: int| 0 <= k < kept@.len() implies kept@[k].uuid
                        != olds[cur].uuid by {
                        let j = ksrc[k];
                        assert(olds[cur].uuid != olds[j].uuid);
                    }
                }
                kept.push(entry);
                proof {
                    ksrc = ksrc.insert(kept@.len() - 1, cur);
                    krev = krev.insert(cur, kept@.len() - 1);
                    assert(kept@[kept@.len() - 1] == olds[cur]);
                }
            }
            i = i + 1;
        }
        self.webauthn_keys = kept;
        proof {
            assert forall|k: int| 0 <= k < self.webauthn_keys@.len() implies old(self).webauthn_keys@.contains(#[trigger] self.webauthn_keys@[k])
                && self.webauthn_keys@[k].local_user != local_user by {
                assert(old(self).webauthn_keys@[ksrc[k]] == self.webauthn_keys@[k]);
            }
            assert forall|j: int|
                0 <= j < old(self).webauthn_keys@.len() && old(self).webauthn_keys@[j].local_user
                    != local_user implies self.webauthn_keys@.contains(
                #[trigger] old(self).webauthn_keys@[j],
            ) by {
                assert(self.webauthn_keys@[krev[j]] == old(self).webauthn_keys@[j]);
            }
        }
    }

    /// Detach the given user from every session record that points at
    /// it; the records themselves stay.
    fn null_sessions_of(&mut self, user: u128)
        requires
            old(self).wf(),
        ensures
            final(self).wf(),
            final(self).users@ == old(self).users@,
            final(self).oidc_users@ == old(self).oidc_users@,
            final(self).local_users@ == old(self).local_users@,
            final(self).totp_keys@ == old(self).totp_keys@,
            final(self).webauthn_keys@ == old(self).webauthn_keys@,
            final(self).user_invites@ == old(self).user_invites@,
            final(self).sessions@.len() == old(self).sessions@.len(),
            forall|j: int|
                0 <= j < old(self).sessions@.len() ==> final(self).sessions@[j] == (if old(self).sessions@[j].user == Some(user) {
                    SessionRecord { id: old(self).sessions@[j].id, user: None }
                } else {
                    old(self).sessions@[j]
                }),
    {
        let n = self.sessions.len();
        for i in 0..n
            invariant
                n == self.sessions@.len(),
                self.sessions@.len() == old(self).sessions@.len(),
                self.users@ == old(self).users@,
                self.oidc_users@ == old(self).oidc_users@,
                self.local_users@ == old(self).local_users@,
                self.totp_keys@ == old(self).totp_keys@,
                self.webauthn_keys@ == old(self).webauthn_keys@,
                self.user_invites@ == old(self).user_invites@,
                forall|j: int|
                    0 <= j < i ==> self.sessions@[j] == (if old(self).sessions@[j].user == Some(
                        user,
                    ) {
                        SessionRecord { id: old(self).sessions@[j].id, user: None }
                    } else {
                        old(self).sessions@[j]
                    }),
                forall|j: int| i <= j < n ==> self.sessions@[j] == old(self).sessions@[j],
                self.wf(),
        {
            let matches_user = match self.sessions[i].user {
                Some(u) => u == user,
                None => false,
            };
            if matches_user {
                let id = self.sessions[i].id;
                self.sessions.set(i, SessionRecord { id, user: None });
            }
        }
    }
}

/// The error that might occur when creating a user.
#[derive(Debug, Clone, Copy, PartialEq, Eq, Structural)]
pub enum CreateUserError {
    /// There is already a user with the chosen mail.
    MailOccupied,
    /// The identifier drawn for the new user is already taken.
    UuidOccupied,
}

impl User {
    /// Create a new user under the given uuid.
    ///
    /// Only the user row itself is created; the caller has to attach a
    /// local or federated credential afterwards. The mail must not be
    /// taken by an existing user, and the uuid — typically freshly
    /// drawn — must not collide with an existing one; the user's role
    /// is derived from the permission classification.
    pub fn create(
        db: &mut Store,
        mail: CheckedString<1, 255>,
        display_name: CheckedString<1, 255>,
        preferred_lang: UserLanguage,
        permissions: UserPermissions,
        uuid: u128,
    ) -> (r: Result<u128, CreateUserError>)
        requires
            old(db).wf(),
        ensures
            final(db).wf(),
            if old(db).user_by_mail(mail@) is Some {
                &&& r == Err::<u128, CreateUserError>(CreateUserError::MailOccupied)
                &&& *final(db) == *old(db)
            } else if old(db).user_by_uuid(uuid) is Some {
                &&& r == Err::<u128, CreateUserError>(CreateUserError::UuidOccupied)
                &&& *final(db) == *old(db)
            } else {
                &&& r == Ok::<u128, CreateUserError>(uuid)
                &&& exists|u: User|
                    final(db).users@ == old(db).users@.push(u) && u.uuid == uuid && u.mail@
                        == mail@ && u.display_name@ == display_name@ && u.preferred_lang
                        == preferred_lang && u.role == permissions.spec_role()
                &&& final(db).oidc_users@ == old(db).oidc_users@
                &&& final(db).local_users@ == old(db).local_users@
                &&& final(db).totp_keys@ == old(db).totp_keys@
                &&& final(db).webauthn_keys@ == old(db).webauthn_keys@
                &&& final(db).user_invites@ == old(db).user_invites@
                &&& final(db).sessions@ == old(db).sessions@
                &&& final(db).user_by_uuid(uuid) matches Some(u) && u.uuid == uuid && u.mail@
                    == mail@
            },
    {
        if db.find_user_by_mail(mail.as_string()).is_some() {
            return Err(CreateUserError::MailOccupied);
        }
        if db.find_user_by_uuid(uuid).is_some() {
            return Err(CreateUserError::UuidOccupied);
        }
        let role = permissions.role();
        let user = User {
            uuid,
            display_name: display_name.into_inner(),
            preferred_lang,
            role,
            mail: mail.into_inner(),
        };
        db.users.push(user);
        proof {
            let news = db.users@;
            let last = news.len() - 1;
            assert(news[last].uuid == uuid && news[last].mail@ == mail@);
            assert(db.wf());
            assert(exists|i: int| 0 <= i < news.len() && news[i].uuid == uuid);
            let w = choose|i: int| 0 <= i < news.len() && news[i].uuid == uuid;
            db.lemma_user_uuid_unique(w, last);
        }
        Ok(uuid)
    }

    /// Overwrite a user's permissions; the stored role follows the new
    /// classification. Without a user under the uuid nothing changes.
    pub fn set_permissions(db: &mut Store, user_uuid: u128, permissions: UserPermissions)
        requires
            old(db).wf(),
        ensures
            final(db).wf(),
            final(db).users@.len() == old(db).users@.len(),
            forall|j: int|
                0 <= j < old(db).users@.len() ==> final(db).users@[j] == (
                if old(db).users@[j].uuid == user_uuid {
                    User { role: permissions.spec_role(), ..old(db).users@[j] }
                } else {
                    old(db).users@[j]
                }),
            final(db).oidc_users@ == old(db).oidc_users@,
            final(db).local_users@ == old(db).local_users@,
            final(db).totp_keys@ == old(db).totp_keys@,
            final(db).webauthn_keys@ == old(db).webauthn_keys@,
            final(db).user_invites@ == old(db).user_invites@,
            final(db).sessions@ == old(db).sessions@,
    {
        match db.find_user_by_uuid(user_uuid) {
            Some(i) => {
                let role = permissions.role();
                let updated = User {
                    uuid: db.users[i].uuid,
                    display_name: db.users[i].display_name.clone(),
                    preferred_lang: db.users[i].preferred_lang,
                    role,
                    mail: db.users[i].mail.clone(),
                };
                db.users.set(i, updated);
                proof {
                    assert forall|j: int|
                        0 <= j < old(db).users@.len() implies db.users@[j] == (
                    if old(db).users@[j].uuid == user_uuid {
                        User { role: permissions.spec_role(), ..old(db).users@[j] }
                    } else {
                        old(db).users@[j]
                    }) by {
                        if j != i && old(db).users@[j].uuid == user_uuid {
                            old(db).lemma_user_uuid_unique(j, i as int);
                        }
                    }
                    assert(db.wf());
                }
            },
            None => (),
        }
    }

    /// Delete a user and everything attached to it.
    ///
    /// The user's local and federated credential rows go with it, and
    /// so do the keys registered under the local row; session records
    /// that pointed at the user stay but no longer point at anyone.
    /// Returns whether a user existed under the uuid; nothing changes
    /// when none did.
    pub fn delete(db: &mut Store, user_uuid: u128) -> (r: bool)
        requires
            old(db).wf(),
        ensures
            final(db).wf(),
            r == (old(db).user_by_uuid(user_uuid) is Some),
            !r ==> *final(db) == *old(db),
            r ==> {
                &&& forall|k: int|
                    0 <= k < final(db).users@.len() ==> old(db).users@.contains(
                        #[trigger] final(db).users@[k],
                    ) && final(db).users@[k].uuid != user_uuid
                &&& forall|j: int|
                    0 <= j < old(db).users@.len() && old(db).users@[j].uuid != user_uuid
                        ==> final(db).users@.contains(#[trigger] old(db).users@[j])
                &&& forall|k: int|
                    0 <= k < final(db).oidc_users@.len() ==> old(db).oidc_users@.contains(
                        #[trigger] final(db).oidc_users@[k],
                    ) && final(db).oidc_users@[k].user != user_uuid
                &&& forall|j: int|
                    0 <= j < old(db).oidc_users@.len() && old(db).oidc_users@[j].user != user_uuid
                        ==> final(db).oidc_users@.contains(#[trigger] old(db).oidc_users@[j])
                &&& forall|k: int|
                    0 <= k < final(db).local_users@.len() ==> old(db).local_users@.contains(
                        #[trigger] final(db).local_users@[k],
                    ) && final(db).local_users@[k].user != user_uuid
                &&& forall|j: int|
                    0 <= j < old(db).local_users@.len() && old(db).local_users@[j].user
                        != user_uuid ==> final(db).local_users@.contains(
                        #[trigger] old(db).local_users@[j],
                    )
                &&& match old(db).local_by_user(user_uuid) {
                    None => final(db).totp_keys@ == old(db).totp_keys@ && final(db).webauthn_keys@
                        == old(db).webauthn_keys@,
                    Some(lu) => {
                        &&& forall|k: int|
                            0 <= k < final(db).totp_keys@.len() ==> old(db).totp_keys@.contains(
                                #[trigger] final(db).totp_keys@[k],
                            ) && final(db).totp_keys@[k].local_user != lu.uuid
                        &&& forall|j: int|
                            0 <= j < old(db).totp_keys@.len() && old(db).totp_keys@[j].local_user
                                != lu.uuid ==> final(db).totp_keys@.contains(
                                #[trigger] old(db).totp_keys@[j],
                            )
                        &&& forall|k: int|
                            0 <= k < final(db).webauthn_keys@.len() ==> old(db).webauthn_keys@.contains(#[trigger] final(db).webauthn_keys@[k])
                                && final(db).webauthn_keys@[k].local_user != lu.uuid
                        &&& forall|j: int|
                            0 <= j < old(db).webauthn_keys@.len() && old(db).webauthn_keys@[j].local_user != lu.uuid ==> final(db).webauthn_keys@.contains(#[trigger] old(db).webauthn_keys@[j])
                    },
                }
                &&& final(db).user_invites@ == old(db).user_invites@
                &&& final(db).sessions@.len() == old(db).sessions@.len()
                &&& forall|j: int|
                    0 <= j < old(db).sessions@.len() ==> final(db).sessions@[j] == (if old(db).sessions@[j].user == Some(user_uuid) {
                        SessionRecord { id: old(db).sessions@[j].id, user: None }
                    } else {
                        old(db).sessions@[j]
                    })
            },
    {
        let Some(ui) = db.find_user_by_uuid(user_uuid) else {
            return false;
        };

        db.users.remove(ui);
        proof {
            let olds = old(db).users@;
            let news = db.users@;
            assert forall|k: int| 0 <= k < news.len() implies olds.contains(#[trigger] news[k])
                && news[k].uuid != user_uuid by {
                if k < ui {
                    assert(news[k] == olds[k]);
                    if news[k].uuid == user_uuid {
                        old(db).lemma_user_uuid_unique(k, ui as int);
                    }
                } else {
                    assert(news[k] == olds[k + 1]);
                    if news[k].uuid == user_uuid {
                        old(db).lemma_user_uuid_unique(k + 1, ui as int);
                    }
                }
            }
            assert forall|j: int|
                0 <= j < olds.len() && olds[j].uuid != user_uuid implies news.contains(
                #[trigger] olds[j],
            ) by {
                if j < ui {
                    assert(news[j] == olds[j]);
                } else if j > ui {
                    assert(news[j - 1] == olds[j]);
                }
            }
            assert forall|a: int, b: int| 0 <= a < b < news.len() implies news[a].uuid
                != news[b].uuid && news[a].mail@ != news[b].mail@ by {
                if b < ui {
                } else if a < ui {
                    assert(news[a] == olds[a] && news[b] == olds[b + 1]);
                } else {
                    assert(news[a] == olds[a + 1] && news[b] == olds[b + 1]);
                }
            }
            assert(db.wf());
        }

        if let Some(oi) = db.find_oidc_by_user(user_uuid) {
            db.oidc_users.remove(oi);
            proof {
                let olds = old(db).oidc_users@;
                let news = db.oidc_users@;
                assert forall|k: int| 0 <= k < news.len() implies olds.contains(#[trigger] news[k])
                    && news[k].user != user_uuid by {
                    if k < oi {
                        assert(news[k] == olds[k]);
                        if news[k].user == user_uuid {
                            old(db).lemma_oidc_user_unique(k, oi as int);
                        }
                    } else {
                        assert(news[k] == olds[k + 1]);
                        if news[k].user == user_uuid {
                            old(db).lemma_oidc_user_unique(k + 1, oi as int);
                        }
                    }
                }
                assert forall|j: int|
                    0 <= j < olds.len() && olds[j].user != user_uuid implies news.contains(
                    #[trigger] olds[j],
                ) by {
                    if j < oi {
                        assert(news[j] == olds[j]);
                    } else if j > oi {
                        assert(news[j - 1] == olds[j]);
                    }
                }
                assert forall|a: int, b: int| 0 <= a < b < news.len() implies news[a].uuid
                    != news[b].uuid && news[a].user != news[b].user && news[a].oidc_id@
                    != news[b].oidc_id@ by {
                    if b < oi {
                    } else if a < oi {
                        assert(news[a] == olds[a] && news[b] == olds[b + 1]);
                    } else {
                        assert(news[a] == olds[a + 1] && news[b] == olds[b + 1]);
                    }
                }
                assert(db.wf());
            }
        }

        match db.find_local_by_user(user_uuid) {
            Some(li) => {
                let local_uuid = db.local_users[li].uuid;
                db.local_users.remove(li);
                proof {
                    let olds = old(db).local_users@;
                    let news = db.local_users@;
                    assert forall|k: int|
                        0 <= k < news.len() implies olds.contains(#[trigger] news[k])
                        && news[k].user != user_uuid by {
                        if k < li {
                            assert(news[k] == olds[k]);
                            if news[k].user == user_uuid {
                                old(db).lemma_local_user_unique(k, li as int);
                            }
                        } else {
                            assert(news[k] == olds[k + 1]);
                            if news[k].user == user_uuid {
                                old(db).lemma_local_user_unique(k + 1, li as int);
                            }
                        }
                    }
                    assert forall|j: int|
                        0 <= j < olds.len() && olds[j].user != user_uuid implies news.contains(
                        #[trigger] olds[j],
                    ) by {
                        if j < li {
                            assert(news[j] == olds[j]);
                        } else if j > li {
                            assert(news[j - 1] == olds[j]);
                        }
                    }
                    assert forall|a: int, b: int| 0 <= a < b < news.len() implies news[a].uuid
                        != news[b].uuid && news[a].user != news[b].user by {
                        if b < li {
                        } else if a < li {
                            assert(news[a] == olds[a] && news[b] == olds[b + 1]);
                        } else {
                            assert(news[a] == olds[a + 1] && news[b] == olds[b + 1]);
                        }
                    }
                    assert(db.wf());
                }
                db.remove_totp_keys_of(local_uuid);
                db.remove_webauthn_keys_of(local_uuid);
            },
            None => (),
        }

        db.null_sessions_of(user_uuid);
        true
    }
}

/// The error that might occur when creating a user invite.
#[derive(Debug, Clone, Copy, PartialEq, Eq, Structural)]
pub enum CreateUserInviteError {
    /// There is already a user with the chosen mail.
    AlreadyUser,
    /// There is already an open invite with the chosen mail.
    AlreadyInvited,
    /// The identifier drawn for the new invite is already taken.
    UuidOccupied,
}

impl UserInvite {
    /// How long a fresh invite stays valid, in seconds.
    pub open spec fn spec_validity_secs() -> u64 {
        86400
    }

    /// Create a new invite under the given uuid, valid for one day from
    /// `now`.
    ///
    /// The mail must be taken neither by an existing user nor by
    /// another open invite, and the uuid — typically freshly drawn —
    /// must not collide with an existing invite's.
    pub fn create(
        db: &mut Store,
        mail: CheckedString<1, 255>,
        display_name: CheckedString<1, 255>,
        preferred_lang: UserLanguage,
        permissions: UserPermissions,
        uuid: u128,
        now: u64,
    ) -> (r: Result<UserInvite, CreateUserInviteError>)
        requires
            old(db).wf(),
            now <= u64::MAX - 86400,
        ensures
            final(db).wf(),
            if old(db).user_by_mail(mail@) is Some {
                &&& r == Err::<UserInvite, CreateUserInviteError>(CreateUserInviteError::AlreadyUser)
                &&& *final(db) == *old(db)
            } else if old(db).invite_by_email(mail@) is Some {
                &&& r == Err::<UserInvite, CreateUserInviteError>(
                    CreateUserInviteError::AlreadyInvited,
                )
                &&& *final(db) == *old(db)
            } else if old(db).invite_by_uuid(uuid) is Some {
                &&& r == Err::<UserInvite, CreateUserInviteError>(
                    CreateUserInviteError::UuidOccupied,
                )
                &&& *final(db) == *old(db)
            } else {
                &&& r matches Ok(invite) && invite.uuid == uuid && invite.email@ == mail@
                    && invite.display_name@ == display_name@ && invite.preferred_lang
                    == preferred_lang && invite.permissions == permissions && invite.expires_at
                    == now + 86400 && invite.created_at == now && final(db).user_invites@ == old(db).user_invites@.push(invite)
                &&& final(db).users@ == old(db).users@
                &&& final(db).oidc_users@ == old(db).oidc_users@
                &&& final(db).local_users@ == old(db).local_users@
                &&& final(db).totp_keys@ == old(db).totp_keys@
                &&& final(db).webauthn_keys@ == old(db).webauthn_keys@
                &&& final(db).sessions@ == old(db).sessions@
            },
    {
        if db.find_user_by_mail(mail.as_string()).is_some() {
            return Err(CreateUserInviteError::AlreadyUser);
        }
        if db.find_invite_by_email(mail.as_string()).is_some() {
            return Err(CreateUserInviteError::AlreadyInvited);
        }
        if db.find_invite_by_uuid(uuid).is_some() {
            return Err(CreateUserInviteError::UuidOccupied);
        }
        let email = mail.into_inner();
        let name = display_name.into_inner();
        let invite = UserInvite {
            uuid,
            display_name: name.clone(),
            preferred_lang,
            email: email.clone(),
            permissions,
            expires_at: now + 86400,
            created_at: now,
        };
        db.user_invites.push(
            UserInvite {
                uuid,
                display_name: name,
                preferred_lang,
                email,
                permissions,
                expires_at: now + 86400,
                created_at: now,
            },
        );
        proof {
            let news = db.user_invites@;
            assert(news[news.len() - 1] == invite);
            assert(db.wf());
        }
        Ok(invite)
    }
}

/// The TOTP keys in the sequence that belong to the local user, in
/// order.
pub open spec fn totp_keys_in(s: Seq<TotpKey>, local_user: u128) -> Seq<TotpKey>
    decreases s.len(),
{
    if s.len() == 0 {
        Seq::empty()
    } else {
        let rest = totp_keys_in(s.drop_last(), local_user);
        if s.last().local_user == local_user {
            rest.push(s.last())
        } else {
            rest
        }
    }
}

/// The WebAuthn keys in the sequence that belong to the local user, in
/// order.
pub open spec fn webauthn_keys_in(s: Seq<WebAuthnKey>, local_user: u128) -> Seq<WebAuthnKey>
    decreases s.len(),
{
    if s.len() == 0 {
        Seq::empty()
    } else {
        let rest = webauthn_keys_in(s.drop_last(), local_user);
        if s.last().local_user == local_user {
            rest.push(s.last())
        } else {
            rest
        }
    }
}

} // verus!
