//! Session state: the transport handle, the session credential, the
//! reauthentication policy, and the concurrently shared anti-forgery token.
//!
//! The anti-forgery token is guarded by vstd's verified reader/writer lock:
//! many in-flight requests read it concurrently while reauthentication
//! holds the single write side, so reads are never serialized behind one
//! another and a read observes a whole value, never a torn one.

use vstd::prelude::*;
use vstd::rwlock::{RwLock, RwLockPredicate};

verus! {

/// The lock predicate for the shared anti-forgery token: any value may be
/// stored, so the lock is used purely for atomicity of reads and writes.
pub struct TokenCell {}

impl RwLockPredicate<Option<String>> for TokenCell {
    open spec fn inv(self, v: Option<String>) -> bool {
        true
    }
}

/// The HTTP method of a logical request.
#[derive(Debug, Copy, Clone, PartialEq, Eq)]
pub enum Method {
    Get,
    Post,
    Patch,
    Delete,
}

/// A logical request description: everything the executor needs to attempt
/// one request. Reused unchanged across the one allowed retry.
#[derive(Debug)]
pub struct RequestComponents {
    pub needs_auth: bool,
    pub method: Method,
    pub url: String,
    pub headers: Option<Vec<(String, String)>>,
    pub body: Option<String>,
}

/// The client. It owns the transport handle, the optional session
/// credential (immutable once built), the reauthentication policy flag,
/// and the anti-forgery token behind a reader/writer lock.
pub struct RustbloxClient {
    reqwest_client: reqwest::Client,
    roblox_cookie: Option<String>,
    auto_reauth: bool,
    csrf_token: RwLock<Option<String>, TokenCell>,
}

impl RustbloxClient {
    /// The session credential configured on this client, if any.
    pub closed spec fn cookie(&self) -> Option<String> {
        self.roblox_cookie
    }

    /// Whether this client reauthenticates itself on a token challenge.
    pub closed spec fn reauth_enabled(&self) -> bool {
        self.auto_reauth
    }

    /// Assembles a client from its parts; the anti-forgery token starts
    /// absent and is only ever replaced through [`Self::set_token`].
    pub(crate) fn assemble(
        reqwest_client: reqwest::Client,
        roblox_cookie: Option<String>,
        auto_reauth: bool,
    ) -> (r: Self)
        ensures
            r.cookie() == roblox_cookie,
            r.reauth_enabled() == auto_reauth,
    {
        let csrf_token = RwLock::new(None, Ghost(TokenCell {  }));
        RustbloxClient { reqwest_client, roblox_cookie, auto_reauth, csrf_token }
    }

    /// The transport handle, for the caller that performs the sends.
    pub fn transport(&self) -> &reqwest::Client {
        &self.reqwest_client
    }

    /// Whether this client reauthenticates itself on a token challenge.
    pub fn auto_reauth(&self) -> (r: bool)
        ensures
            r == self.reauth_enabled(),
    {
        self.auto_reauth
    }

    /// The session credential of this client, if one was configured.
    pub fn roblox_cookie(&self) -> (r: Option<&String>)
        ensures
            match r {
                Some(s) => self.cookie() == Some(*s),
                None => self.cookie() is None,
            },
    {
        self.roblox_cookie.as_ref()
    }

    /// A copy of the current anti-forgery token, or `None` when the client
    /// has not authenticated. The read takes the shared side of the lock,
    /// so concurrent reads proceed together; which value is seen depends on
    /// the writes racing with this call, so nothing more can be promised of
    /// it statically.
    pub fn csrf_token(&self) -> Option<String> {
        let read_handle = self.csrf_token.acquire_read();
        let token = match read_handle.borrow() {
            Some(t) => Some(t.clone()),
            None => None,
        };
        read_handle.release_read();
        token
    }

    /// Replaces the anti-forgery token. Takes the exclusive side of the
    /// lock; the new value is what subsequent reads observe, until the next
    /// write.
    pub fn set_token(&self, value: String) {
        let (_, write_handle) = self.csrf_token.acquire_write();
        write_handle.release_write(Some(value));
    }

    /// True iff a session credential is present and an anti-forgery token
    /// was present at the instant of the read.
    pub fn is_authenticated(&self) -> (r: bool)
        ensures
            r ==> self.cookie() is Some,
    {
        let read_handle = self.csrf_token.acquire_read();
        let has_token = read_handle.borrow().is_some();
        read_handle.release_read();
        self.roblox_cookie.is_some() && has_token
    }
}

} // verus!
