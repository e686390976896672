//! An explicit, typed session context.
//!
//! The host framework hands each request an opaque key-value session backed
//! by an external store.  This module replaces those untyped lookups with a
//! plain value carrying the three pieces of state the admin flow keeps per
//! client: the authenticated identity, the bound challenge answer, and the
//! ephemeral private key for password transport.  The surrounding binary
//! loads a `SessionData` from the backing store before a handler runs and
//! writes it back afterwards.

use vstd::prelude::*;

verus! {

/// The per-client session state of the admin flow.
///
/// At most one challenge answer and one transport key are bound at a time;
/// `login_id` is present exactly after a successful authentication and is
/// positive whenever the access guard lets a request through.
#[derive(Clone)]
pub struct SessionData {
    /// Identifier of the authenticated user, if any.
    pub login_id: Option<u32>,
    /// Answer text of the currently bound visual challenge, if any.
    pub captcha: Option<String>,
    /// PEM text of the session-bound ephemeral private key, if any.
    pub auth_key: Option<String>,
}

/// Whether a session carries an authenticated identity.
pub open spec fn spec_logged_in(s: SessionData) -> bool {
    match s.login_id {
        Some(id) => id > 0,
        None => false,
    }
}

impl SessionData {
    /// A fresh session with nothing bound.
    pub fn new() -> (r: SessionData)
        ensures
            r.login_id is None,
            r.captcha is None,
            r.auth_key is None,
    {
        SessionData { login_id: None, captcha: None, auth_key: None }
    }

    /// Whether this session carries an authenticated identity.
    pub fn logged_in(&self) -> (r: bool)
        ensures
            r == spec_logged_in(*self),
    {
        match self.login_id {
            Some(id) => id > 0,
            None => false,
        }
    }

    /// Binds an authenticated identity, replacing any prior one.
    pub fn set_login_id(&mut self, id: u32)
        ensures
            final(self).login_id == Some(id),
            final(self).captcha == old(self).captcha,
            final(self).auth_key == old(self).auth_key,
    {
        self.login_id = Some(id);
    }

    /// Removes the authenticated identity; reports whether one was bound.
    pub fn remove_login_id(&mut self) -> (r: bool)
        ensures
            final(self).login_id is None,
            final(self).captcha == old(self).captcha,
            final(self).auth_key == old(self).auth_key,
            r == (old(self).login_id is Some),
    {
        let was = self.login_id.is_some();
        self.login_id = None;
        was
    }

    /// Binds a challenge answer, replacing any prior one.
    pub fn set_captcha(&mut self, answer: String)
        ensures
            final(self).captcha == Some(answer),
            final(self).login_id == old(self).login_id,
            final(self).auth_key == old(self).auth_key,
    {
        self.captcha = Some(answer);
    }

    /// Binds an ephemeral private key, replacing any prior one.
    pub fn set_auth_key(&mut self, key: String)
        ensures
            final(self).auth_key == Some(key),
            final(self).login_id == old(self).login_id,
            final(self).captcha == old(self).captcha,
    {
        self.auth_key = Some(key);
    }

    /// Removes the ephemeral private key; reports whether one was bound.
    pub fn remove_auth_key(&mut self) -> (r: bool)
        ensures
            final(self).auth_key is None,
            final(self).login_id == old(self).login_id,
            final(self).captcha == old(self).captcha,
            r == (old(self).auth_key is Some),
    {
        let was = self.auth_key.is_some();
        self.auth_key = None;
        was
    }
}

} // verus!
