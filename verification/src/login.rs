//! The login handshake: exchanging a session credential for a fresh
//! anti-forgery token.
//!
//! The protocol is a small state machine. The caller that owns the
//! transport performs each step's I/O and reports what it observed; every
//! decision — what to send, how to classify each response, when the token
//! is written — is made and verified here. The protocol: first an
//! unauthenticated reachability probe of the platform's root endpoint
//! (failure is fatal and distinguishes "unreachable" from "bad
//! credentials"); with no credential configured the login then succeeds
//! trivially; otherwise a logout-style request carrying the credential is
//! sent, the platform answers it with status 403 and a fresh token in a
//! dedicated header, and that token is written into the session state.

use crate::client::{Method, RequestComponents, RustbloxClient};
use crate::error::ClientError;
use vstd::prelude::*;
use vstd::string::*;

verus! {

/// How a login exchange succeeded.
#[derive(Debug, Copy, Clone, PartialEq, Eq)]
pub enum LoginSuccess {
    /// A fresh anti-forgery token was obtained and written.
    Authenticated,
    /// No session credential is configured, so the exchange succeeded
    /// trivially and no token was obtained — a valid state for anonymous
    /// usage. [`Self::warning`] carries the warning that authenticated
    /// endpoints stay unavailable.
    AnonymousOnly,
}

/// The warning that an anonymous login carries: authenticated endpoints
/// stay unavailable until a session credential is configured.
pub open spec fn anonymous_warning() -> Seq<char> {
    "[WARN/LOGIN]: Please be advised that you do not have a .ROBLOSECURITY cookie set.\nYou will not be able to use functions that require this."@
}

impl LoginSuccess {
    /// The warning this success carries: an anonymous login warns that
    /// authenticated endpoints are unavailable; an authenticated login
    /// carries no warning.
    pub fn warning(&self) -> (r: Option<String>)
        ensures
            match *self {
                LoginSuccess::Authenticated => r is None,
                LoginSuccess::AnonymousOnly => r matches Some(w) && w@ == anonymous_warning(),
            },
    {
        match self {
            LoginSuccess::Authenticated => None,
            LoginSuccess::AnonymousOnly => Some(
                String::from_str(
                    "[WARN/LOGIN]: Please be advised that you do not have a .ROBLOSECURITY cookie set.\nYou will not be able to use functions that require this.",
                ),
            ),
        }
    }
}

/// The phases of one login exchange.
#[derive(Debug)]
pub enum LoginFlow {
    /// The driver must probe the platform's root endpoint and report the
    /// outcome to [`RustbloxClient::on_probe`].
    Probe,
    /// The driver must send the handshake request built by
    /// [`RustbloxClient::handshake_components`] and report the response to
    /// [`RustbloxClient::on_handshake`].
    Handshake,
    /// The exchange is over.
    Done(Result<LoginSuccess, ClientError>),
}

/// What the platform's handshake response carried in the token header.
#[derive(Debug)]
pub enum CsrfHeader {
    /// No token header was present.
    Missing,
    /// A token header was present but its value was not decodable as text;
    /// carries the underlying cause.
    Undecodable(String),
    /// The decoded token value.
    Value(String),
}

/// What the driver observed when it sent the handshake request.
#[derive(Debug)]
pub enum HandshakeEvent {
    /// The request could not be sent at all; carries the transport's
    /// rendered error.
    SendFailed(String),
    /// A response arrived.
    Response { status: u16, csrf_header: CsrfHeader },
}

/// The message reported when the reachability probe fails.
pub open spec fn probe_failure_message(cause: Seq<char>) -> Seq<char> {
    "Could not reach roblox.com ("@ + cause + ")"@
}

/// The message reported when the handshake request cannot be sent.
pub open spec fn handshake_send_failure_message(cause: Seq<char>) -> Seq<char> {
    "Authentication request error: \n"@ + cause
}

/// The message reported when the token header cannot be decoded as text.
pub open spec fn token_decode_failure_message(cause: Seq<char>) -> Seq<char> {
    "Failed to parse CSRF token:\n"@ + cause
}

/// The message reported when the handshake response carries no token.
pub open spec fn no_token_message() -> Seq<char> {
    "No x-csrf-token was given by Roblox"@
}

/// The exact transition the handshake step takes for each event: a send
/// failure or an undecodable/missing token header is a login failure, a
/// status other than the 403 token challenge means the credential itself
/// is invalid, and a decodable token completes the exchange.
pub open spec fn handshake_transition(event: HandshakeEvent, r: LoginFlow) -> bool {
    match event {
        HandshakeEvent::SendFailed(cause) => r matches LoginFlow::Done(d) && d matches Err(e)
            && e matches ClientError::LoginFailed(text) && text@ == handshake_send_failure_message(
            cause@,
        ),
        HandshakeEvent::Response { status, csrf_header } => {
            if status != 403 {
                r == LoginFlow::Done(
                    Result::<LoginSuccess, ClientError>::Err(ClientError::InvalidCookie),
                )
            } else {
                match csrf_header {
                    CsrfHeader::Missing => r matches LoginFlow::Done(d) && d matches Err(e)
                        && e matches ClientError::LoginFailed(text) && text@ == no_token_message(),
                    CsrfHeader::Undecodable(cause) => r matches LoginFlow::Done(d)
                        && d matches Err(e) && e matches ClientError::LoginFailed(text) && text@
                        == token_decode_failure_message(cause@),
                    CsrfHeader::Value(_) => r == LoginFlow::Done(
                        Result::<LoginSuccess, ClientError>::Ok(LoginSuccess::Authenticated),
                    ),
                }
            }
        },
    }
}

impl RustbloxClient {
    /// Starts a login exchange: the reachability probe comes first.
    pub fn begin_login(&self) -> (f: LoginFlow)
        ensures
            f is Probe,
    {
        LoginFlow::Probe
    }

    /// The request the driver must send as the reachability probe.
    pub fn probe_components(&self) -> (r: RequestComponents)
        ensures
            !r.needs_auth,
            r.method == Method::Get,
            r.url@ == "https://roblox.com"@,
            r.headers is None,
            r.body is None,
    {
        RequestComponents {
            needs_auth: false,
            method: Method::Get,
            url: String::from_str("https://roblox.com"),
            headers: None,
            body: None,
        }
    }

    /// Advances the exchange on the probe's outcome: an unreachable
    /// platform is fatal; a reachable one either finishes the login
    /// trivially (no credential configured — authenticated endpoints stay
    /// unavailable) or moves on to the handshake.
    pub fn on_probe(&self, flow: LoginFlow, outcome: Result<(), String>) -> (r: LoginFlow)
        requires
            flow is Probe,
        ensures
            outcome matches Err(cause) ==> (r matches LoginFlow::Done(d) && d matches Err(e)
                && e matches ClientError::LoginFailed(text) && text@ == probe_failure_message(
                cause@,
            )),
            outcome is Ok && self.cookie() is None ==> r == LoginFlow::Done(
                Result::<LoginSuccess, ClientError>::Ok(LoginSuccess::AnonymousOnly),
            ),
            outcome is Ok && self.cookie() is Some ==> r is Handshake,
    {
        match outcome {
            Err(cause) => {
                let mut text = String::from_str("Could not reach roblox.com (");
                text.append(cause.as_str());
                text.append(")");
                LoginFlow::Done(Err(ClientError::LoginFailed(text)))
            },
            Ok(()) => {
                if self.roblox_cookie().is_none() {
                    LoginFlow::Done(Ok(LoginSuccess::AnonymousOnly))
                } else {
                    LoginFlow::Handshake
                }
            },
        }
    }

    /// The handshake request the driver must send: a logout-style call —
    /// deliberately a safe, idempotent operation that the platform answers
    /// with a fresh anti-forgery token in its rejection response — carrying
    /// the session credential as a cookie-style header.
    pub fn handshake_components(&self) -> (r: RequestComponents)
        requires
            self.cookie() is Some,
        ensures
            !r.needs_auth,
            r.method == Method::Post,
            r.url@ == "https://auth.roblox.com/v2/logout"@,
            r.headers matches Some(hs) && {
                &&& hs@.len() == 2
                &&& hs@[0].0@ == "Content-Length"@
                &&& hs@[0].1@ == "0"@
                &&& hs@[1].0@ == "Cookie"@
                &&& hs@[1].1@ == self.cookie()->0@
            },
            r.body is None,
    {
        let cookie = match self.roblox_cookie() {
            Some(c) => c.clone(),
            None => String::new(),  // unreachable under the precondition
        };
        let mut headers: Vec<(String, String)> = Vec::new();
        headers.push((String::from_str("Content-Length"), String::from_str("0")));
        headers.push((String::from_str("Cookie"), cookie));
        RequestComponents {
            needs_auth: false,
            method: Method::Post,
            url: String::from_str("https://auth.roblox.com/v2/logout"),
            headers: Some(headers),
            body: None,
        }
    }

    /// Advances the exchange on the handshake response. Exactly a 403
    /// status is the expected token challenge — any other status means the
    /// credential itself is invalid. A challenge without a decodable token
    /// header is a login failure; a decodable token is written into the
    /// session state (the exclusive write side of the token lock) and the
    /// exchange succeeds.
    pub fn on_handshake(&self, flow: LoginFlow, event: HandshakeEvent) -> (r: LoginFlow)
        requires
            flow is Handshake,
        ensures
            handshake_transition(event, r),
    {
        match event {
            HandshakeEvent::SendFailed(cause) => {
                let mut text = String::from_str("Authentication request error: \n");
                text.append(cause.as_str());
                LoginFlow::Done(Err(ClientError::LoginFailed(text)))
            },
            HandshakeEvent::Response { status, csrf_header } => {
                if status != 403 {
                    return LoginFlow::Done(Err(ClientError::InvalidCookie));
                }
                match csrf_header {
                    CsrfHeader::Missing => LoginFlow::Done(
                        Err(
                            ClientError::LoginFailed(
                                String::from_str("No x-csrf-token was given by Roblox"),
                            ),
                        ),
                    ),
                    CsrfHeader::Undecodable(cause) => {
                        let mut text = String::from_str("Failed to parse CSRF token:\n");
                        text.append(cause.as_str());
                        LoginFlow::Done(Err(ClientError::LoginFailed(text)))
                    },
                    CsrfHeader::Value(token) => {
                        self.set_token(token);
                        LoginFlow::Done(Ok(LoginSuccess::Authenticated))
                    },
                }
            },
        }
    }
}

} // verus!
