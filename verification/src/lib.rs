//! Admin-panel authentication and request handling, modelled as verified
//! decision logic over an explicit per-client session context.
//!
//! The session-backed login flow (challenge issuance, credential transport,
//! authentication, logout) and the access guard in front of the admin routes
//! are implemented as functions from plain values to plain values, so that
//! every rule they enforce is stated in a contract and proved.  Calls into
//! outside crates (RSA transport decryption, digests, base64, the challenge
//! image renderer) stand behind small trusted wrappers.

pub mod auth;
pub mod challenge;
pub mod codec;
pub mod crypto;
pub mod digest;
pub mod entity;
pub mod envelope;
pub mod errors;
pub mod guard;
pub mod guestbook;
pub mod routes;
pub mod session;
pub mod strutil;
pub mod upload;
