use rustblox::client::builder::RustbloxClientBuilder;
use rustblox::client::{Method, RequestComponents, RustbloxClient};
use rustblox::error::{ClientError, RequestError};
use rustblox::login::LoginSuccess;
use rustblox::request::{AttemptEvent, RequestFlow};

fn authed_client(auto_reauth: bool) -> RustbloxClient {
    let client = RustbloxClientBuilder::new()
        .insert_cookie("_|WARNING:test-session")
        .expect("cookie")
        .automatic_reauthentication(auto_reauth)
        .build()
        .expect("build");
    client.set_token("old-token".to_string());
    client
}

fn components(needs_auth: bool) -> RequestComponents {
    RequestComponents {
        needs_auth,
        method: Method::Get,
        url: "https://users.roblox.com/v1/users/authenticated".to_string(),
        headers: None,
        body: None,
    }
}

/// Drives one request against a scripted transport. Each script entry is
/// the outcome of one send, with the body the driver would read if asked.
/// Returns the outcome and how many sends, body reads, and login exchanges
/// were performed.
fn drive(
    client: &RustbloxClient,
    components: &RequestComponents,
    script: Vec<(AttemptEvent, Option<Result<String, String>>)>,
    login_results: Vec<Result<LoginSuccess, ClientError>>,
) -> (Result<(), RequestError>, usize, usize, usize) {
    let mut sends = 0usize;
    let mut body_reads = 0usize;
    let mut logins = 0usize;
    let mut script = script.into_iter();
    let mut login_results = login_results.into_iter();
    let mut pending_body: Option<Result<String, String>> = None;
    let mut flow = client.begin_request(components);
    loop {
        flow = match flow {
            RequestFlow::Attempt { retried } => {
                let (after_plan, plan) =
                    client.plan_attempt(RequestFlow::Attempt { retried }, components);
                match plan {
                    None => after_plan,
                    Some(_auth_headers) => {
                        sends += 1;
                        let (event, body) = script.next().expect("script exhausted");
                        pending_body = body;
                        client.on_attempt(after_plan, components, event)
                    }
                }
            }
            RequestFlow::FetchBody { retried, status } => {
                body_reads += 1;
                let body = pending_body.take().expect("no body scripted");
                client.on_body(RequestFlow::FetchBody { retried, status }, components, body)
            }
            RequestFlow::Reauth => {
                logins += 1;
                let outcome = login_results.next().expect("no login scripted");
                client.on_reauth(RequestFlow::Reauth, outcome)
            }
            RequestFlow::Done(outcome) => return (outcome, sends, body_reads, logins),
        };
    }
}

#[test]
fn needs_auth_without_credential_makes_no_call() {
    let client = RustbloxClientBuilder::new().build().expect("build");
    let c = components(true);
    let (outcome, sends, body_reads, logins) = drive(&client, &c, vec![], vec![]);
    assert!(matches!(outcome, Err(RequestError::NotAuthenticated)));
    assert_eq!(sends, 0);
    assert_eq!(body_reads, 0);
    assert_eq!(logins, 0);
}

#[test]
fn needs_auth_without_token_makes_no_call() {
    let client = RustbloxClientBuilder::new()
        .insert_cookie("_|WARNING:test-session")
        .expect("cookie")
        .build()
        .expect("build");
    // A credential is configured but no anti-forgery token was ever
    // obtained: the internal invariant check fails before any send.
    let c = components(true);
    let (outcome, sends, _, logins) = drive(&client, &c, vec![], vec![]);
    assert!(matches!(outcome, Err(RequestError::NotAuthenticated)));
    assert_eq!(sends, 0);
    assert_eq!(logins, 0);
}

#[test]
fn status_401_is_expired_cookie_and_never_reauthenticates() {
    let client = authed_client(true);
    let c = components(true);
    let script = vec![(AttemptEvent::HttpError { status: 401 }, None)];
    let (outcome, sends, body_reads, logins) = drive(&client, &c, script, vec![]);
    assert!(matches!(outcome, Err(RequestError::ExpiredCookie)));
    assert_eq!(sends, 1);
    assert_eq!(body_reads, 0);
    assert_eq!(logins, 0);
}

#[test]
fn token_challenge_reauthenticates_once_and_retries() {
    let client = authed_client(true);
    let c = components(true);
    let script = vec![
        (
            AttemptEvent::HttpError { status: 403 },
            Some(Ok("{\"code\":0,\"message\":\"Token Validation Failed\"}".to_string())),
        ),
        (AttemptEvent::Succeeded { decode_error: None }, None),
    ];
    let (outcome, sends, body_reads, logins) = drive(&client, &c, script, vec![Ok(LoginSuccess::Authenticated)]);
    assert!(outcome.is_ok());
    assert_eq!(sends, 2, "exactly the original attempt and one retry");
    assert_eq!(body_reads, 1);
    assert_eq!(logins, 1, "exactly one login exchange");
}

#[test]
fn token_challenge_with_reauth_disabled_fails_after_one_call() {
    let client = authed_client(false);
    let c = components(true);
    let script = vec![(
        AttemptEvent::HttpError { status: 403 },
        Some(Ok("{\"code\":0,\"message\":\"Token Validation Failed\"}".to_string())),
    )];
    let (outcome, sends, _, logins) = drive(&client, &c, script, vec![]);
    match outcome {
        Err(RequestError::ReauthenticationFailed(msg)) => {
            assert_eq!(msg, "Automatic reauthentication either not enabled or already tried");
        }
        other => panic!("expected ReauthenticationFailed, got {:?}", other),
    }
    assert_eq!(sends, 1);
    assert_eq!(logins, 0);
}

#[test]
fn second_token_challenge_is_not_retried() {
    let client = authed_client(true);
    let c = components(true);
    let challenge = "{\"code\":0,\"message\":\"Token Validation Failed\"}";
    let script = vec![
        (AttemptEvent::HttpError { status: 403 }, Some(Ok(challenge.to_string()))),
        (AttemptEvent::HttpError { status: 403 }, Some(Ok(challenge.to_string()))),
    ];
    let (outcome, sends, _, logins) = drive(&client, &c, script, vec![Ok(LoginSuccess::Authenticated)]);
    assert!(matches!(outcome, Err(RequestError::ReauthenticationFailed(_))));
    assert_eq!(sends, 2, "the retried attempt is never replayed again");
    assert_eq!(logins, 1);
}

#[test]
fn failed_reauthentication_wraps_the_login_error() {
    let client = authed_client(true);
    let c = components(true);
    let script = vec![(
        AttemptEvent::HttpError { status: 403 },
        Some(Ok("{\"code\":0,\"message\":\"Token Validation Failed\"}".to_string())),
    )];
    let login_failure = Err(ClientError::InvalidCookie);
    let (outcome, sends, _, logins) = drive(&client, &c, script, vec![login_failure]);
    match outcome {
        Err(RequestError::ReauthenticationFailed(msg)) => {
            assert_eq!(msg, "The provided .ROBLOSECURITY token is invalid");
        }
        other => panic!("expected ReauthenticationFailed, got {:?}", other),
    }
    assert_eq!(sends, 1);
    assert_eq!(logins, 1);
}

#[test]
fn unknown_challenge_variant_is_a_transport_failure() {
    let client = authed_client(true);
    let c = components(true);
    let script = vec![(
        AttemptEvent::HttpError { status: 403 },
        Some(Ok("{\"code\":5,\"message\":\"something else\"}".to_string())),
    )];
    let (outcome, sends, _, logins) = drive(&client, &c, script, vec![]);
    match outcome {
        Err(RequestError::RequestError(url, msg)) => {
            assert_eq!(url, c.url);
            assert!(msg.starts_with("Unknown 403 error:\n"), "got: {msg}");
        }
        other => panic!("expected RequestError, got {:?}", other),
    }
    assert_eq!(sends, 1);
    assert_eq!(logins, 0, "an unrecognized challenge never reauthenticates");
}

#[test]
fn server_error_carries_status_and_reads_no_body() {
    let client = authed_client(true);
    let c = components(true);
    let script = vec![(AttemptEvent::HttpError { status: 500 }, None)];
    let (outcome, sends, body_reads, logins) = drive(&client, &c, script, vec![]);
    assert!(matches!(outcome, Err(RequestError::ServerError(500))));
    assert_eq!(sends, 1);
    assert_eq!(body_reads, 0, "a server-class error never reads the body");
    assert_eq!(logins, 0);
}

#[test]
fn generic_client_error_list_is_parsed() {
    let client = RustbloxClientBuilder::new().build().expect("build");
    let c = components(false);
    let body = "{\"errors\":[{\"code\":1,\"message\":\"The group is invalid or does not exist.\"}]}";
    let script = vec![(AttemptEvent::HttpError { status: 400 }, Some(Ok(body.to_string())))];
    let (outcome, sends, _, _) = drive(&client, &c, script, vec![]);
    match outcome {
        Err(RequestError::ClientError(url, status, errors)) => {
            assert_eq!(url, c.url);
            assert_eq!(status, 400);
            assert_eq!(errors.errors.len(), 1);
            assert_eq!(errors.errors[0].code, 1);
            assert_eq!(errors.errors[0].message, "The group is invalid or does not exist.");
        }
        other => panic!("expected ClientError, got {:?}", other),
    }
    assert_eq!(sends, 1);
}

#[test]
fn malformed_error_body_is_a_transport_failure() {
    let client = RustbloxClientBuilder::new().build().expect("build");
    let c = components(false);
    let script =
        vec![(AttemptEvent::HttpError { status: 400 }, Some(Ok("not json at all".to_string())))];
    let (outcome, _, _, _) = drive(&client, &c, script, vec![]);
    match outcome {
        Err(RequestError::RequestError(url, msg)) => {
            assert_eq!(url, c.url);
            assert!(msg.starts_with("Couldn't parse error body json:\n"), "got: {msg}");
            assert!(msg.contains("Response body:\nnot json at all"), "got: {msg}");
        }
        other => panic!("expected RequestError, got {:?}", other),
    }
}

#[test]
fn unshaped_client_error_body_is_a_transport_failure() {
    let client = RustbloxClientBuilder::new().build().expect("build");
    let c = components(false);
    let script =
        vec![(AttemptEvent::HttpError { status: 400 }, Some(Ok("{\"foo\":1}".to_string())))];
    let (outcome, _, _, _) = drive(&client, &c, script, vec![]);
    match outcome {
        Err(RequestError::RequestError(_, msg)) => {
            assert!(
                msg.starts_with("Couldn't parse error body json as RobloxApiErrors:\n"),
                "got: {msg}"
            );
        }
        other => panic!("expected RequestError, got {:?}", other),
    }
}

#[test]
fn unanticipated_status_class_becomes_synthetic_client_error() {
    let client = RustbloxClientBuilder::new().build().expect("build");
    let c = components(false);
    let script =
        vec![(AttemptEvent::HttpError { status: 302 }, Some(Ok("redirected away".to_string())))];
    let (outcome, _, _, _) = drive(&client, &c, script, vec![]);
    match outcome {
        Err(RequestError::ClientError(url, status, errors)) => {
            assert_eq!(url, c.url);
            assert_eq!(status, 302);
            assert_eq!(errors.errors.len(), 1);
            assert_eq!(errors.errors[0].code, -999);
            assert_eq!(errors.errors[0].message, "redirected away");
        }
        other => panic!("expected ClientError, got {:?}", other),
    }
}

#[test]
fn send_failure_carries_url_and_cause() {
    let client = RustbloxClientBuilder::new().build().expect("build");
    let c = components(false);
    let script = vec![(AttemptEvent::SendFailed("connection refused".to_string()), None)];
    let (outcome, _, _, _) = drive(&client, &c, script, vec![]);
    match outcome {
        Err(RequestError::RequestError(url, msg)) => {
            assert_eq!(url, c.url);
            assert_eq!(msg, "connection refused");
        }
        other => panic!("expected RequestError, got {:?}", other),
    }
}

#[test]
fn decode_failure_on_success_status_is_a_transport_failure() {
    let client = RustbloxClientBuilder::new().build().expect("build");
    let c = components(false);
    let script = vec![(
        AttemptEvent::Succeeded { decode_error: Some("invalid type: null".to_string()) },
        None,
    )];
    let (outcome, _, _, _) = drive(&client, &c, script, vec![]);
    match outcome {
        Err(RequestError::RequestError(url, msg)) => {
            assert_eq!(url, c.url);
            assert_eq!(msg, "invalid type: null");
        }
        other => panic!("expected RequestError, got {:?}", other),
    }
}

#[test]
fn body_read_failure_on_client_error() {
    let client = RustbloxClientBuilder::new().build().expect("build");
    let c = components(false);
    let script =
        vec![(AttemptEvent::HttpError { status: 400 }, Some(Err("stream cut".to_string())))];
    let (outcome, _, _, _) = drive(&client, &c, script, vec![]);
    match outcome {
        Err(RequestError::RequestError(_, msg)) => {
            assert_eq!(msg, "Failed to get error response body:\nstream cut");
        }
        other => panic!("expected RequestError, got {:?}", other),
    }
}

#[test]
fn unauthenticated_request_attaches_no_auth_headers() {
    let client = RustbloxClientBuilder::new().build().expect("build");
    let c = components(false);
    let flow = client.begin_request(&c);
    let (_, plan) = client.plan_attempt(flow, &c);
    assert_eq!(plan, Some(vec![]));
}

#[test]
fn authenticated_request_attaches_cookie_and_token() {
    let client = authed_client(true);
    let c = components(true);
    let flow = client.begin_request(&c);
    let (_, plan) = client.plan_attempt(flow, &c);
    let headers = plan.expect("credentials are present, so a plan is given");
    assert_eq!(
        headers,
        vec![
            ("Cookie".to_string(), ".ROBLOSECURITY=_|WARNING:test-session".to_string()),
            ("x-csrf-token".to_string(), "old-token".to_string()),
        ]
    );
}
