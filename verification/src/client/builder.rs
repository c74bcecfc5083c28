//! Builds a client: validates the session credential at construction time
//! and assembles the transport handle.

use crate::client::RustbloxClient;
use crate::error::ClientError;
use crate::text::str_starts_with;
use crate::transport::{client_builder_build, client_builder_new, client_builder_user_agent,
    transport_error_text};
use vstd::prelude::*;
use vstd::string::*;

verus! {

/// The user agent sent on every request.
pub fn get_user_agent() -> (r: String)
    ensures
        r@ == "Rustblox v0.1.0"@,
{
    String::from_str("Rustblox v0.1.0")
}

/// Every session credential the platform issues begins with this literal
/// warning prefix; anything else is rejected before any network call.
pub open spec fn valid_cookie(cookie: Seq<char>) -> bool {
    let prefix = "_|WARNING"@;
    cookie.len() >= prefix.len() && cookie.subrange(0, prefix.len() as int) == prefix
}

/// The cookie-header value stored for a validated credential.
pub open spec fn formatted_cookie(cookie: Seq<char>) -> Seq<char> {
    ".ROBLOSECURITY="@ + cookie
}

/// Builds a [`RustbloxClient`].
///
/// `roblox_cookie` is the optional session credential, validated by
/// [`Self::insert_cookie`]; `auto_reauth` controls whether the built client
/// refreshes its anti-forgery token on a token challenge (on by default).
pub struct RustbloxClientBuilder {
    reqwest_builder: reqwest::ClientBuilder,
    roblox_cookie: Option<String>,
    auto_reauth: bool,
}

impl RustbloxClientBuilder {
    /// The session credential inserted so far, if any.
    pub closed spec fn cookie(&self) -> Option<String> {
        self.roblox_cookie
    }

    /// Whether the built client will reauthenticate itself.
    pub closed spec fn reauth_enabled(&self) -> bool {
        self.auto_reauth
    }

    /// Creates a new `RustbloxClientBuilder`: no credential, automatic
    /// reauthentication enabled.
    pub fn new() -> (r: Self)
        ensures
            r.cookie() is None,
            r.reauth_enabled(),
    {
        let agent = get_user_agent();
        RustbloxClientBuilder {
            reqwest_builder: client_builder_user_agent(client_builder_new(), agent.as_str()),
            roblox_cookie: None,
            auto_reauth: true,
        }
    }

    /// Sets whether the built client should automatically reauthenticate
    /// itself when the platform challenges its anti-forgery token. The
    /// client will attempt reauthentication at most once per request.
    pub fn automatic_reauthentication(self, auto_reauth: bool) -> (r: Self)
        ensures
            r.cookie() == self.cookie(),
            r.reauth_enabled() == auto_reauth,
    {
        RustbloxClientBuilder {
            reqwest_builder: self.reqwest_builder,
            roblox_cookie: self.roblox_cookie,
            auto_reauth,
        }
    }

    /// Inserts a session credential. The credential is validated here, at
    /// construction time: exactly the inputs carrying the required prefix
    /// are accepted, and a rejected input produces `InvalidCookie` before
    /// any network call could be made.
    pub fn insert_cookie(self, cookie: &str) -> (r: Result<Self, ClientError>)
        ensures
            r is Ok <==> valid_cookie(cookie@),
            r matches Ok(b) ==> {
                &&& b.cookie() matches Some(stored) && stored@ == formatted_cookie(cookie@)
                &&& b.reauth_enabled() == self.reauth_enabled()
            },
            r matches Err(e) ==> e is InvalidCookie,
    {
        if !str_starts_with(cookie, "_|WARNING") {
            return Err(ClientError::InvalidCookie);
        }
        let mut formatted = String::from_str(".ROBLOSECURITY=");
        formatted.append(cookie);
        Ok(
            RustbloxClientBuilder {
                reqwest_builder: self.reqwest_builder,
                roblox_cookie: Some(formatted),
                auto_reauth: self.auto_reauth,
            },
        )
    }

    /// Attempts to use this builder to construct a [`RustbloxClient`].
    /// The credential and policy carry over unchanged; the call fails only
    /// when the transport handle cannot be built, and then reports the
    /// transport's own diagnostic.
    pub fn build(self) -> (r: Result<RustbloxClient, ClientError>)
        ensures
            r matches Ok(c) ==> c.cookie() == self.cookie() && c.reauth_enabled()
                == self.reauth_enabled(),
            r matches Err(e) ==> e is ReqwestBuildError,
    {
        match client_builder_build(self.reqwest_builder) {
            Ok(built_client) => Ok(
                RustbloxClient::assemble(built_client, self.roblox_cookie, self.auto_reauth),
            ),
            Err(e) => Err(ClientError::ReqwestBuildError(transport_error_text(&e))),
        }
    }
}

impl Default for RustbloxClientBuilder {
    /// The default builder is exactly a fresh one.
    fn default() -> (r: Self)
        ensures
            r.cookie() is None,
            r.reauth_enabled(),
    {
        RustbloxClientBuilder::new()
    }
}

} // verus!
