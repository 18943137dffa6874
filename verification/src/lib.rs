//! Verified core of a multi-factor authentication service.
//!
//! The crate models the data that the service keeps — user identities,
//! local credentials (password hash, TOTP secrets, WebAuthn keys), user
//! invites, persisted session records and the per-client transient session —
//! and verifies the logic that drives them: the login state machine
//! (anonymous → partially authenticated → authenticated), the time-bounded
//! partial-authentication marker, the single-use ceremony store, and the
//! session broadcast registry that fans server pushes out to every live
//! connection of a user.
//!
//! Cryptographic capabilities (password hashing, TOTP token checks, base32
//! decoding) are reached through small trusted wrappers; everything around
//! them is verified. WebAuthn ceremonies are treated as an external
//! capability: the verified functions sequence them and consume their
//! outcomes, which the caller obtains from the ceremony backend.

pub mod auth;
pub mod common;
pub mod crypto;
pub mod globals;
pub mod invites;
pub mod models;
pub mod oidc;
pub mod registry;
pub mod session;
pub mod strings;
pub mod users;
pub mod ws;

use vstd::prelude::*;

verus! {

} // verus!
