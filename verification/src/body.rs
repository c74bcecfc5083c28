//! Probing and classifying error response bodies.
//!
//! The platform reports client errors in two incompatible JSON shapes: the
//! token challenge carries `{"code": n, "message": ...}` at the top level,
//! while every other client error carries `{"errors": [{code, message},
//! ...]}`. The shapes are told apart by a structural probe — the presence
//! of a top-level `"code"` key — not by status alone, since a 403 can carry
//! either shape. The probe reads the document through serde_json and is
//! trusted; its result depends on the body text alone, so it carries the
//! name [`probe_of`]. Every decision taken on the probed facts is
//! verified, with the exact decision stated by [`client_error_decision`].

use crate::error::{RequestError, RobloxApiError, RobloxApiErrors};
use vstd::prelude::*;
use vstd::string::*;

verus! {

#[verifier::external_type_specification]
#[verifier::external_body]
pub struct ExValue(serde_json::Value);

/// The structural facts about an error response body that the classifier
/// branches on.
#[derive(Debug)]
pub enum BodyProbe {
    /// The body is not valid JSON; carries the parser's diagnostic.
    Malformed(String),
    /// The body is a JSON document.
    Json {
        /// A `"code"` key is present at the top level.
        has_code: bool,
        /// That top-level code is the integer zero.
        code_is_zero: bool,
        /// The code/message pairs, when the document has the generic
        /// error-list shape.
        error_list: Option<RobloxApiErrors>,
        /// The document rendered back to text, for diagnostics.
        rendered: String,
    },
}

/// The facts [`probe_error_body`] finds in a body. serde_json's parse and
/// the fixed projections taken of it depend on the text alone, so the
/// probed facts are a function of the text; what they are for a given text
/// is decided by serde_json, and nothing here says more of them.
pub uninterp spec fn probe_of(text: Seq<char>) -> BodyProbe;

/// Relies on serde_json::Value::{get, as_array, as_i64, as_str} and
/// str::to_owned: reads the generic error-list shape out of a parsed
/// document — a top-level `"errors"` array whose every element carries an
/// integer `"code"` in `i16` range and a string `"message"` — and `None`
/// for a document of any other shape. Part of the trusted probe below.
#[verifier::external_body]
fn extract_error_list(value: &serde_json::Value) -> Option<RobloxApiErrors> {
    let items = value.get("errors")?.as_array()?;
    let mut errors: Vec<RobloxApiError> = Vec::new();
    let mut i: usize = 0;
    while i < items.len() {
        let item = &items[i];
        let code_num = item.get("code")?.as_i64()?;
        if code_num < i16::MIN as i64 || code_num > i16::MAX as i64 {
            return None;
        }
        let message = item.get("message")?.as_str()?;
        errors.push(RobloxApiError { code: code_num as i16, message: message.to_owned() });
        i += 1;
    }
    Some(RobloxApiErrors { errors })
}

/// Probes an error response body: whether it parses as JSON at all,
/// whether a top-level `"code"` key is present and zero, whether the
/// document has the generic error-list shape, and the document rendered
/// back to text.
///
/// Relies on serde_json::from_str (`Err` on any malformed input), the
/// Display impls of serde_json::Error and serde_json::Value, and
/// Value::{get, as_i64}; the list shape comes from [`extract_error_list`].
/// All of these are functions of the text alone, so the result is exactly
/// `probe_of` applied to it. What is done with the probed facts is
/// decided, and verified, in [`decide_client_error`].
#[verifier::external_body]
pub(crate) fn probe_error_body(text: &str) -> (r: BodyProbe)
    ensures
        r == probe_of(text@),
{
    let value = match serde_json::from_str::<serde_json::Value>(text) {
        Ok(v) => v,
        Err(e) => return BodyProbe::Malformed(e.to_string()),
    };
    let code = value.get("code");
    BodyProbe::Json {
        has_code: code.is_some(),
        code_is_zero: code.and_then(serde_json::Value::as_i64) == Some(0),
        error_list: extract_error_list(&value),
        rendered: value.to_string(),
    }
}

/// What the executor does with one classified client-error response.
#[derive(Debug)]
pub enum ErrorDecision {
    /// Surface this error to the caller.
    Fail(RequestError),
    /// The token challenge: refresh the token and retry once.
    StartReauth,
}

/// The message reported when the error body is not valid JSON.
pub open spec fn malformed_body_message(detail: Seq<char>, raw: Seq<char>) -> Seq<char> {
    "Couldn't parse error body json:\n"@ + detail + "Response body:\n"@ + raw
}

/// The message reported for a token-challenge status whose body carries a
/// nonzero code: an unrecognized challenge variant, never retried.
pub open spec fn unknown_challenge_message(rendered: Seq<char>) -> Seq<char> {
    "Unknown 403 error:\n"@ + rendered
}

/// The message reported when the challenge is genuine but the policy
/// forbids (another) reauthentication.
pub open spec fn reauth_unavailable_message() -> Seq<char> {
    "Automatic reauthentication either not enabled or already tried"@
}

/// The message reported when a client-error body has neither known shape.
pub open spec fn list_shape_failure_message(rendered: Seq<char>) -> Seq<char> {
    "Couldn't parse error body json as RobloxApiErrors:\n"@ + rendered
}

/// The exact decision taken for a client-error response, given the probed
/// body facts and the reauthentication policy: a malformed body is a
/// transport failure; a 403 with a top-level code is the token challenge —
/// retried exactly when the code is zero, the policy allows it and no retry
/// has happened yet, an unrecognized variant otherwise; every other body is
/// the generic error list when it has that shape and a transport failure
/// when it has neither.
pub open spec fn client_error_decision(
    url: Seq<char>,
    status: u16,
    raw: Seq<char>,
    probe: BodyProbe,
    auto_reauth: bool,
    retried: bool,
    d: ErrorDecision,
) -> bool {
    match probe {
        BodyProbe::Malformed(detail) => d matches ErrorDecision::Fail(e)
            && e matches RequestError::RequestError(u, m) && u@ == url && m@
            == malformed_body_message(detail@, raw),
        BodyProbe::Json { has_code, code_is_zero, error_list, rendered } => {
            if status == 403 && has_code {
                if !code_is_zero {
                    d matches ErrorDecision::Fail(e) && e matches RequestError::RequestError(u, m)
                        && u@ == url && m@ == unknown_challenge_message(rendered@)
                } else if auto_reauth && !retried {
                    d is StartReauth
                } else {
                    d matches ErrorDecision::Fail(e) && e matches RequestError::ReauthenticationFailed(
                        m,
                    ) && m@ == reauth_unavailable_message()
                }
            } else {
                match error_list {
                    Some(errors) => d matches ErrorDecision::Fail(e)
                        && e matches RequestError::ClientError(u, s, es) && u@ == url && s == status
                        && es == errors,
                    None => d matches ErrorDecision::Fail(e)
                        && e matches RequestError::RequestError(u, m) && u@ == url && m@
                        == list_shape_failure_message(rendered@),
                }
            }
        },
    }
}

/// Decides what the executor does with a client-error response, exactly as
/// [`client_error_decision`] states.
pub fn decide_client_error(
    url: &str,
    status: u16,
    raw: &str,
    probe: BodyProbe,
    auto_reauth: bool,
    retried: bool,
) -> (d: ErrorDecision)
    requires
        400 <= status < 500,
        status != 401,
    ensures
        client_error_decision(url@, status, raw@, probe, auto_reauth, retried, d),
{
    match probe {
        BodyProbe::Malformed(detail) => {
            let mut m = String::from_str("Couldn't parse error body json:\n");
            m.append(detail.as_str());
            m.append("Response body:\n");
            m.append(raw);
            ErrorDecision::Fail(RequestError::RequestError(url.to_owned(), m))
        },
        BodyProbe::Json { has_code, code_is_zero, error_list, rendered } => {
            if status == 403 && has_code {
                if !code_is_zero {
                    let mut m = String::from_str("Unknown 403 error:\n");
                    m.append(rendered.as_str());
                    ErrorDecision::Fail(RequestError::RequestError(url.to_owned(), m))
                } else if auto_reauth && !retried {
                    ErrorDecision::StartReauth
                } else {
                    ErrorDecision::Fail(
                        RequestError::ReauthenticationFailed(
                            String::from_str(
                                "Automatic reauthentication either not enabled or already tried",
                            ),
                        ),
                    )
                }
            } else {
                match error_list {
                    Some(errors) => ErrorDecision::Fail(
                        RequestError::ClientError(url.to_owned(), status, errors),
                    ),
                    None => {
                        let mut m = String::from_str(
                            "Couldn't parse error body json as RobloxApiErrors:\n",
                        );
                        m.append(rendered.as_str());
                        ErrorDecision::Fail(RequestError::RequestError(url.to_owned(), m))
                    },
                }
            }
        },
    }
}

/// The retry bound: once a retry has happened, no decision starts another
/// reauthentication — whatever the status and whatever the body held.
pub proof fn lemma_no_second_reauth(
    url: Seq<char>,
    status: u16,
    raw: Seq<char>,
    probe: BodyProbe,
    auto_reauth: bool,
    d: ErrorDecision,
)
    requires
        client_error_decision(url, status, raw, probe, auto_reauth, true, d),
    ensures
        d is Fail,
{
}

/// The policy switch: with automatic reauthentication disabled, no
/// decision starts one — whatever the status and whatever the body held.
pub proof fn lemma_no_reauth_when_disabled(
    url: Seq<char>,
    status: u16,
    raw: Seq<char>,
    probe: BodyProbe,
    retried: bool,
    d: ErrorDecision,
)
    requires
        client_error_decision(url, status, raw, probe, false, retried, d),
    ensures
        d is Fail,
{
}

} // verus!
