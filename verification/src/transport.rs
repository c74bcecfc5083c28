//! The trusted boundary to the reqwest HTTP transport.
//!
//! The library never performs network I/O itself: it only builds and owns
//! the transport handle. The handful of items here declare the reqwest
//! types the client stores and wrap the calls that construct them; each
//! wrapper's body is a single reqwest call. Nothing is promised of their
//! results beyond their types: whether a transport handle can be built
//! depends on the machine (TLS backend, resolver), so the verified callers
//! state what holds of every outcome.

use vstd::prelude::*;

verus! {

#[verifier::external_type_specification]
#[verifier::external_body]
pub struct ExClient(reqwest::Client);

#[verifier::external_type_specification]
#[verifier::external_body]
pub struct ExClientBuilder(reqwest::ClientBuilder);

#[verifier::external_type_specification]
#[verifier::external_body]
pub struct ExError(reqwest::Error);

/// Relies on reqwest::ClientBuilder::new: constructs a fresh transport
/// configuration.
#[verifier::external_body]
pub(crate) fn client_builder_new() -> reqwest::ClientBuilder {
    reqwest::ClientBuilder::new()
}

/// Relies on reqwest::ClientBuilder::user_agent: records the user-agent
/// header to be sent on every request.
#[verifier::external_body]
pub(crate) fn client_builder_user_agent(
    builder: reqwest::ClientBuilder,
    agent: &str,
) -> reqwest::ClientBuilder {
    builder.user_agent(agent)
}

/// Relies on reqwest::ClientBuilder::build: turns the configuration into a
/// transport handle; it fails when a TLS backend cannot be initialized or
/// the system resolver cannot be loaded.
#[verifier::external_body]
pub(crate) fn client_builder_build(builder: reqwest::ClientBuilder) -> Result<
    reqwest::Client,
    reqwest::Error,
> {
    builder.build()
}

/// Relies on the Display impl of reqwest::Error: renders the failure for
/// diagnostics.
#[verifier::external_body]
pub(crate) fn transport_error_text(error: &reqwest::Error) -> String {
    format!("{error}")
}

} // verus!
