//! The request executor: one logical request, including the bounded
//! retry-on-reauthentication protocol.
//!
//! Executing a request is a state machine stepped by the caller that owns
//! the transport. The driver sends what the machine tells it to send and
//! reports what it observed; the machine makes every decision: the local
//! authentication precondition, which credentials to attach, how each
//! response status is interpreted, when the error body must be read, and
//! whether the single reauthentication retry happens. The `retried` flag
//! carried by the states bounds the protocol to one original attempt plus
//! at most one retry; [`crate::body::lemma_no_second_reauth`] shows no
//! decision can start a second one.

use crate::body::{client_error_decision, decide_client_error, probe_error_body, probe_of,
    ErrorDecision};
use crate::client::{RequestComponents, RustbloxClient};
use crate::error::{ClientError, RequestError, RobloxApiError, RobloxApiErrors};
use crate::login::LoginSuccess;
use vstd::prelude::*;
use vstd::string::*;

verus! {

/// The phases of one executed request.
#[derive(Debug)]
pub enum RequestFlow {
    /// The driver must send the request — with the headers given by
    /// [`RustbloxClient::plan_attempt`] — and report the outcome to
    /// [`RustbloxClient::on_attempt`]. `retried` says whether the one
    /// allowed reauthentication retry has already happened.
    Attempt { retried: bool },
    /// A response arrived whose body must be read and reported to
    /// [`RustbloxClient::on_body`].
    FetchBody { retried: bool, status: u16 },
    /// The driver must run one login exchange (see [`crate::login`]) and
    /// report its outcome to [`RustbloxClient::on_reauth`].
    Reauth,
    /// The request is over. `Ok` means the driver decoded the payload.
    Done(Result<(), RequestError>),
}

/// What the driver observed when it sent one attempt.
#[derive(Debug)]
pub enum AttemptEvent {
    /// The request could not be sent at all; carries the transport's
    /// rendered error.
    SendFailed(String),
    /// A success status arrived and the driver decoded the body as the
    /// caller's expected type; a decode failure is reported here, since it
    /// violates the contract even though the network succeeded.
    Succeeded { decode_error: Option<String> },
    /// A non-success status arrived. No body has been read yet.
    HttpError { status: u16 },
}

/// The 400-class statuses: errors reported by the platform about the
/// request.
pub open spec fn is_client_error(status: u16) -> bool {
    400 <= status < 500
}

/// The 500-class statuses: errors reported by the platform about itself.
pub open spec fn is_server_error(status: u16) -> bool {
    500 <= status < 600
}

/// The message reported when a client-error body cannot be read.
pub open spec fn body_read_failure_message(cause: Seq<char>) -> Seq<char> {
    "Failed to get error response body:\n"@ + cause
}

/// The message reported when the body of an unanticipated status class
/// cannot be read.
pub open spec fn raw_body_failure_message(cause: Seq<char>) -> Seq<char> {
    "Couldn't parse body as string:\n"@ + cause
}

/// The synthetic code carried by the fallback error entry built for an
/// unanticipated status class.
pub open spec fn fallback_error_code() -> int {
    -999
}

/// The exact transition taken on an attempt's outcome: a send failure or a
/// decode failure is a transport failure carrying the url, a success
/// decode finishes the request, a 401 is the expired credential (never
/// retried), a 500-class status is the server-class error with no body
/// read, and everything else moves on to reading the body.
pub open spec fn attempt_transition(
    retried: bool,
    url: Seq<char>,
    event: AttemptEvent,
    r: RequestFlow,
) -> bool {
    match event {
        AttemptEvent::SendFailed(cause) => r matches RequestFlow::Done(out) && out matches Err(e)
            && e matches RequestError::RequestError(u, m) && u@ == url && m@ == cause@,
        AttemptEvent::Succeeded { decode_error: None } => r == RequestFlow::Done(
            Result::<(), RequestError>::Ok(()),
        ),
        AttemptEvent::Succeeded { decode_error: Some(cause) } => r matches RequestFlow::Done(out)
            && out matches Err(e) && e matches RequestError::RequestError(u, m) && u@ == url && m@
            == cause@,
        AttemptEvent::HttpError { status } => {
            if status == 401 {
                r == RequestFlow::Done(
                    Result::<(), RequestError>::Err(RequestError::ExpiredCookie),
                )
            } else if is_server_error(status) {
                r == RequestFlow::Done(
                    Result::<(), RequestError>::Err(RequestError::ServerError(status)),
                )
            } else {
                r == (RequestFlow::FetchBody { retried, status })
            }
        },
    }
}

/// The exact transition taken on a non-success response's body. A body
/// that could not be read is a transport failure, worded by status class.
/// For a client-error status the body's probed facts — `probe_of` of its
/// text — are classified exactly as [`client_error_decision`] states, and
/// the flow applies the decision. For any other unanticipated status class
/// the raw body is wrapped in a single synthetic code/message entry.
pub open spec fn body_transition(
    retried: bool,
    status: u16,
    url: Seq<char>,
    auto_reauth: bool,
    body: Result<String, String>,
    r: RequestFlow,
) -> bool {
    match body {
        Err(cause) => r matches RequestFlow::Done(out) && out matches Err(e)
            && e matches RequestError::RequestError(u, m) && u@ == url && m@ == (
        if is_client_error(status) {
            body_read_failure_message(cause@)
        } else {
            raw_body_failure_message(cause@)
        }),
        Ok(text) => {
            if !is_client_error(status) {
                r matches RequestFlow::Done(out) && out matches Err(e)
                    && e matches RequestError::ClientError(u, s, es) && u@ == url && s == status
                    && es.errors@.len() == 1 && es.errors@[0].code as int == fallback_error_code()
                    && es.errors@[0].message@ == text@
            } else {
                exists|d: ErrorDecision|
                    {
                        &&& #[trigger] client_error_decision(
                            url,
                            status,
                            text@,
                            probe_of(text@),
                            auto_reauth,
                            retried,
                            d,
                        )
                        &&& decision_applied(d, r)
                    }
            }
        },
    }
}

/// The transition a decision stands for: a failure finishes the request
/// with exactly that error; the token challenge moves to reauthentication.
pub open spec fn decision_applied(d: ErrorDecision, r: RequestFlow) -> bool {
    match d {
        ErrorDecision::Fail(e) => r == RequestFlow::Done(Result::<(), RequestError>::Err(e)),
        ErrorDecision::StartReauth => r is Reauth,
    }
}

impl RustbloxClient {
    /// Starts executing one logical request. The local precondition comes
    /// first: a request that needs authentication on a client with no
    /// session credential fails immediately — the flow is born `Done`, so
    /// no attempt is ever planned and no transport call is made.
    pub fn begin_request(&self, components: &RequestComponents) -> (f: RequestFlow)
        ensures
            components.needs_auth && self.cookie() is None ==> f == RequestFlow::Done(
                Result::<(), RequestError>::Err(RequestError::NotAuthenticated),
            ),
            !(components.needs_auth && self.cookie() is None) ==> f == (RequestFlow::Attempt {
                retried: false,
            }),
    {
        if components.needs_auth && self.roblox_cookie().is_none() {
            RequestFlow::Done(Err(RequestError::NotAuthenticated))
        } else {
            RequestFlow::Attempt { retried: false }
        }
    }

    /// Plans one attempt: the authentication headers to attach to the
    /// outgoing request. An unauthenticated request attaches nothing. An
    /// authenticated one attaches the session credential as a cookie-style
    /// header and the current anti-forgery token as a dedicated header; if
    /// either is absent — the token is read from the shared lock at this
    /// instant, so that can happen even though the precondition held — the
    /// internal invariant is violated and the flow fails as
    /// not-authenticated instead of sending anything.
    pub fn plan_attempt(&self, flow: RequestFlow, components: &RequestComponents) -> (r: (
        RequestFlow,
        Option<Vec<(String, String)>>,
    ))
        requires
            flow is Attempt,
        ensures
            !components.needs_auth ==> {
                &&& r.0 == flow
                &&& r.1 matches Some(hs) && hs@.len() == 0
            },
            components.needs_auth ==> match r.1 {
                None => r.0 == RequestFlow::Done(
                    Result::<(), RequestError>::Err(RequestError::NotAuthenticated),
                ),
                Some(hs) => {
                    &&& r.0 == flow
                    &&& self.cookie() is Some
                    &&& hs@.len() == 2
                    &&& hs@[0].0@ == "Cookie"@
                    &&& hs@[0].1@ == self.cookie()->0@
                    &&& hs@[1].0@ == "x-csrf-token"@
                },
            },
    {
        if !components.needs_auth {
            let headers: Vec<(String, String)> = Vec::new();
            return (flow, Some(headers));
        }
        let cookie = match self.roblox_cookie() {
            Some(c) => c.clone(),
            None => {
                return (RequestFlow::Done(Err(RequestError::NotAuthenticated)), None);
            },
        };
        let token = match self.csrf_token() {
            Some(t) => t,
            None => {
                return (RequestFlow::Done(Err(RequestError::NotAuthenticated)), None);
            },
        };
        let mut headers: Vec<(String, String)> = Vec::new();
        headers.push((String::from_str("Cookie"), cookie));
        headers.push((String::from_str("x-csrf-token"), token));
        (flow, Some(headers))
    }

    /// Advances the flow on an attempt's outcome, exactly as
    /// [`attempt_transition`] states.
    pub fn on_attempt(
        &self,
        flow: RequestFlow,
        components: &RequestComponents,
        event: AttemptEvent,
    ) -> (r: RequestFlow)
        requires
            flow is Attempt,
        ensures
            attempt_transition(flow->Attempt_retried, components.url@, event, r),
    {
        let retried = match flow {
            RequestFlow::Attempt { retried } => retried,
            _ => false,  // unreachable under the precondition
        };
        match event {
            AttemptEvent::SendFailed(cause) => RequestFlow::Done(
                Err(RequestError::RequestError(clone_url(components), cause)),
            ),
            AttemptEvent::Succeeded { decode_error: None } => RequestFlow::Done(Ok(())),
            AttemptEvent::Succeeded { decode_error: Some(cause) } => RequestFlow::Done(
                Err(RequestError::RequestError(clone_url(components), cause)),
            ),
            AttemptEvent::HttpError { status } => {
                if status == 401 {
                    RequestFlow::Done(Err(RequestError::ExpiredCookie))
                } else if 500 <= status && status < 600 {
                    RequestFlow::Done(Err(RequestError::ServerError(status)))
                } else {
                    RequestFlow::FetchBody { retried, status }
                }
            },
        }
    }

    /// Advances the flow on the body of a non-success response. A body
    /// that could not be read is a transport failure. For a client-error
    /// status the body is probed and classified — the exact decision is
    /// [`client_error_decision`], and the flow applies it. For any other
    /// unanticipated status class the raw body is wrapped in a single
    /// synthetic code/message entry, so the pipeline never fails on a
    /// status class it did not foresee.
    pub fn on_body(
        &self,
        flow: RequestFlow,
        components: &RequestComponents,
        body: Result<String, String>,
    ) -> (r: RequestFlow)
        requires
            flow is FetchBody,
            flow->FetchBody_status != 401,
        ensures
            body_transition(
                flow->FetchBody_retried,
                flow->FetchBody_status,
                components.url@,
                self.reauth_enabled(),
                body,
                r,
            ),
    {
        let (retried, status) = match flow {
            RequestFlow::FetchBody { retried, status } => (retried, status),
            _ => (false, 0u16),  // unreachable under the precondition
        };
        let client_error = 400 <= status && status < 500;
        match body {
            Err(cause) => {
                let mut m = if client_error {
                    String::from_str("Failed to get error response body:\n")
                } else {
                    String::from_str("Couldn't parse body as string:\n")
                };
                m.append(cause.as_str());
                RequestFlow::Done(Err(RequestError::RequestError(clone_url(components), m)))
            },
            Ok(text) => {
                if !client_error {
                    let entry = RobloxApiError { code: -999, message: text };
                    let errors = RobloxApiErrors { errors: vec![entry] };
                    RequestFlow::Done(
                        Err(RequestError::ClientError(clone_url(components), status, errors)),
                    )
                } else {
                    let probe = probe_error_body(text.as_str());
                    let auto_reauth = self.auto_reauth();
                    let decision = decide_client_error(
                        components.url.as_str(),
                        status,
                        text.as_str(),
                        probe,
                        auto_reauth,
                        retried,
                    );
                    match decision {
                        ErrorDecision::Fail(e) => RequestFlow::Done(Err(e)),
                        ErrorDecision::StartReauth => RequestFlow::Reauth,
                    }
                }
            },
        }
    }

    /// Advances the flow on the outcome of the reauthentication exchange:
    /// a failed login surfaces as the reauthentication-failed error
    /// wrapping the login's own message; a successful one replays the same
    /// request exactly once more, with the retried flag set.
    pub fn on_reauth(&self, flow: RequestFlow, login_outcome: Result<LoginSuccess, ClientError>) -> (r:
        RequestFlow)
        requires
            flow is Reauth,
        ensures
            login_outcome is Ok ==> r == (RequestFlow::Attempt { retried: true }),
            login_outcome matches Err(e) ==> (r matches RequestFlow::Done(out)
                && out matches Err(re) && re matches RequestError::ReauthenticationFailed(m) && m@
                == e.message_seq()),
    {
        match login_outcome {
            Ok(_) => RequestFlow::Attempt { retried: true },
            Err(e) => {
                let text = e.to_string();
                RequestFlow::Done(Err(RequestError::ReauthenticationFailed(text)))
            },
        }
    }
}

/// The retry bound at the flow level: once the one allowed retry has
/// happened, no body classification can move the flow to reauthentication
/// again — whatever the status was and whatever the body held. Together
/// with [`RustbloxClient::on_reauth`], which is the only way a flow reaches
/// `Attempt { retried: true }`, this bounds every request to its original
/// attempt plus at most one replay.
pub proof fn lemma_flow_retry_bound(
    status: u16,
    url: Seq<char>,
    auto_reauth: bool,
    body: Result<String, String>,
    r: RequestFlow,
)
    requires
        body_transition(true, status, url, auto_reauth, body, r),
    ensures
        !(r is Reauth),
{
    match body {
        Ok(text) => {
            if is_client_error(status) {
                let d = choose|d: ErrorDecision|
                    {
                        &&& #[trigger] client_error_decision(
                            url,
                            status,
                            text@,
                            probe_of(text@),
                            auto_reauth,
                            true,
                            d,
                        )
                        &&& decision_applied(d, r)
                    };
                crate::body::lemma_no_second_reauth(
                    url,
                    status,
                    text@,
                    probe_of(text@),
                    auto_reauth,
                    d,
                );
            }
        },
        Err(_) => {},
    }
}

/// The policy switch at the flow level: with automatic reauthentication
/// disabled, no body classification ever moves the flow to
/// reauthentication, so a token challenge surfaces after the one transport
/// call that produced it.
pub proof fn lemma_flow_no_reauth_when_disabled(
    retried: bool,
    status: u16,
    url: Seq<char>,
    body: Result<String, String>,
    r: RequestFlow,
)
    requires
        body_transition(retried, status, url, false, body, r),
    ensures
        !(r is Reauth),
{
    match body {
        Ok(text) => {
            if is_client_error(status) {
                let d = choose|d: ErrorDecision|
                    {
                        &&& #[trigger] client_error_decision(
                            url,
                            status,
                            text@,
                            probe_of(text@),
                            false,
                            retried,
                            d,
                        )
                        &&& decision_applied(d, r)
                    };
                crate::body::lemma_no_reauth_when_disabled(
                    url,
                    status,
                    text@,
                    probe_of(text@),
                    retried,
                    d,
                );
            }
        },
        Err(_) => {},
    }
}

/// A fresh copy of the request's url, for the error being built.
fn clone_url(components: &RequestComponents) -> (r: String)
    ensures
        r@ == components.url@,
{
    components.url.clone()
}

} // verus!
