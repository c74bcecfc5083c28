use rustblox::error::{ClientError, RequestError, RobloxApiError, RobloxApiErrors};

#[test]
fn api_error_line_is_exact() {
    let e = RobloxApiError { code: 2, message: "The roleset is invalid or does not exist.".to_string() };
    assert_eq!(e.to_string(), "Error code 2: \"The roleset is invalid or does not exist.\"");
}

#[test]
fn api_error_line_renders_negative_codes() {
    let e = RobloxApiError { code: -999, message: "fallback".to_string() };
    assert_eq!(e.to_string(), "Error code -999: \"fallback\"");
}

#[test]
fn api_error_list_renders_every_line() {
    let errors = RobloxApiErrors {
        errors: vec![
            RobloxApiError { code: 1, message: "a".to_string() },
            RobloxApiError { code: 14, message: "b".to_string() },
        ],
    };
    assert_eq!(
        errors.to_string(),
        "Roblox API Errors:\n - Error code 1: \"a\"\n - Error code 14: \"b\"\n"
    );
}

#[test]
fn empty_api_error_list_renders_the_header_alone() {
    let errors = RobloxApiErrors { errors: vec![] };
    assert_eq!(errors.to_string(), "Roblox API Errors:\n");
}

#[test]
fn request_error_messages_carry_url_and_discriminator() {
    let url = "https://groups.roblox.com/v1/groups/5681740".to_string();
    let transport = RequestError::RequestError(url.clone(), "timed out".to_string());
    let rendered = transport.to_string();
    assert!(rendered.contains(&url));
    assert_eq!(rendered, format!("Had an error sending the request to {url}:\ntimed out"));

    let client_class = RequestError::ClientError(
        url.clone(),
        400,
        RobloxApiErrors { errors: vec![RobloxApiError { code: 1, message: "bad".to_string() }] },
    );
    let rendered = client_class.to_string();
    assert!(rendered.contains(&url));
    assert!(rendered.contains("400"));
    assert_eq!(
        rendered,
        format!("{url} returned status code 400\nRoblox API Errors:\n - Error code 1: \"bad\"\n")
    );

    let server_class = RequestError::ServerError(503);
    let rendered = server_class.to_string();
    assert!(rendered.contains("503"));
    assert_eq!(rendered, "Server returned status code 503");
}

#[test]
fn local_request_error_messages_are_exact() {
    assert_eq!(
        RequestError::NotAuthenticated.to_string(),
        "You need to be logged in to use this endpoint!"
    );
    assert_eq!(RequestError::ExpiredCookie.to_string(), "The .ROBLOSECURITY cookie expired.");
    assert_eq!(
        RequestError::ReauthenticationFailed("cause".to_string()).to_string(),
        "Automatic reauthentication failed:\ncause"
    );
}

#[test]
fn client_error_messages_are_exact() {
    assert_eq!(
        ClientError::InvalidCookie.to_string(),
        "The provided .ROBLOSECURITY token is invalid"
    );
    assert_eq!(
        ClientError::LoginFailed("why".to_string()).to_string(),
        "Logging into the Roblox API failed:\nwhy"
    );
    assert_eq!(
        ClientError::CookieError("why".to_string()).to_string(),
        "Had an error setting the .ROBLOSECURITY cookie in reqwest:\nwhy"
    );
    assert_eq!(
        ClientError::ReqwestBuildError("why".to_string()).to_string(),
        "Had an error building the Reqwest client:\nwhy"
    );
}
