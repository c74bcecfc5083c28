//! The structured error taxonomy and its human-readable rendering.
//!
//! Every failure of the pipeline is one of these typed values; rendering a
//! value to text is exact (see the `message` spec functions), and the
//! rendering laws at the bottom show that a rendered message carries the
//! url and the discriminating status or code of the error it describes.

use crate::text::{dec_seq, i16_to_dec, int_dec_seq, lemma_concat_contains_middle,
    lemma_contains_extend, lemma_contains_trans, seq_contains, u16_to_dec};
use vstd::prelude::*;
use vstd::string::*;

verus! {

/// An error raised while building a client or logging it in.
#[derive(Debug)]
#[non_exhaustive]
pub enum ClientError {
    /// The `.ROBLOSECURITY` cookie is invalid.
    InvalidCookie,
    /// The login process failed.
    LoginFailed(String),
    /// Setting the `.ROBLOSECURITY` cookie failed.
    CookieError(String),
    /// The reqwest client builder failed.
    ReqwestBuildError(String),
}

/// An error raised while executing a request.
#[derive(Debug)]
#[non_exhaustive]
pub enum RequestError {
    /// The user tried to use an endpoint that requires authentication
    /// without being authenticated.
    NotAuthenticated,
    /// Automatic client reauthentication failed.
    ReauthenticationFailed(String),
    /// The `.ROBLOSECURITY` cookie in use expired.
    ExpiredCookie,
    /// There was an error sending the request; carries the url and the
    /// underlying message.
    RequestError(String, String),
    /// The server returned a 400-class status code (client error).
    /// Contains the url, status code, and a collection of errors.
    ClientError(String, u16, RobloxApiErrors),
    /// The server returned a 500-class status code (server error).
    /// Contains the status code.
    ServerError(u16),
}

/// One code/message pair reported by the platform.
#[derive(Debug)]
pub struct RobloxApiError {
    pub code: i16,
    pub message: String,
}

/// The list-shaped error body reported by the platform for most client
/// errors.
#[derive(Debug)]
pub struct RobloxApiErrors {
    pub errors: Vec<RobloxApiError>,
}

impl RobloxApiError {
    /// The rendered message of one code/message pair.
    pub open spec fn message_seq(&self) -> Seq<char> {
        "Error code "@ + int_dec_seq(self.code as int) + ": \""@ + self.message@ + "\""@
    }

    /// Renders this error as one line of text.
    pub fn to_string(&self) -> (r: String)
        ensures
            r@ == self.message_seq(),
    {
        let mut r = String::from_str("Error code ");
        let code = i16_to_dec(self.code);
        r.append(code.as_str());
        r.append(": \"");
        r.append(self.message.as_str());
        r.append("\"");
        proof {
            assert(r@ =~= self.message_seq());
        }
        r
    }
}

/// The rendered lines for a sequence of code/message pairs, one ` - ...`
/// line per pair.
pub open spec fn api_error_lines(s: Seq<RobloxApiError>) -> Seq<char>
    decreases s.len(),
{
    if s.len() == 0 {
        Seq::empty()
    } else {
        api_error_lines(s.drop_last()) + " - "@ + s.last().message_seq() + "\n"@
    }
}

impl RobloxApiErrors {
    /// The rendered message of the whole list.
    pub open spec fn message_seq(&self) -> Seq<char> {
        "Roblox API Errors:\n"@ + api_error_lines(self.errors@)
    }

    /// Renders the list, one line per reported error.
    pub fn to_string(&self) -> (r: String)
        ensures
            r@ == self.message_seq(),
    {
        let mut r = String::from_str("Roblox API Errors:\n");
        let mut i: usize = 0;
        while i < self.errors.len()
            invariant
                i <= self.errors@.len(),
                r@ == "Roblox API Errors:\n"@ + api_error_lines(self.errors@.take(i as int)),
            decreases self.errors@.len() - i,
        {
            r.append(" - ");
            let line = self.errors[i].to_string();
            r.append(line.as_str());
            r.append("\n");
            proof {
                assert(self.errors@.take(i + 1int).drop_last() =~= self.errors@.take(i as int));
                assert(self.errors@.take(i + 1int).last() == self.errors@[i as int]);
                assert(r@ =~= "Roblox API Errors:\n"@ + api_error_lines(
                    self.errors@.take(i + 1int),
                ));
            }
            i += 1;
        }
        proof {
            assert(self.errors@.take(self.errors@.len() as int) =~= self.errors@);
        }
        r
    }
}

impl ClientError {
    /// The rendered message of this error.
    pub open spec fn message_seq(&self) -> Seq<char> {
        match *self {
            ClientError::InvalidCookie => "The provided .ROBLOSECURITY token is invalid"@,
            ClientError::CookieError(ref err) => "Had an error setting the .ROBLOSECURITY cookie in reqwest:\n"@
                + err@,
            ClientError::LoginFailed(ref err) => "Logging into the Roblox API failed:\n"@ + err@,
            ClientError::ReqwestBuildError(ref err) => "Had an error building the Reqwest client:\n"@
                + err@,
        }
    }

    /// Renders this error as a human-readable message.
    pub fn to_string(&self) -> (r: String)
        ensures
            r@ == self.message_seq(),
    {
        match self {
            ClientError::InvalidCookie => String::from_str(
                "The provided .ROBLOSECURITY token is invalid",
            ),
            ClientError::CookieError(err) => {
                let mut r = String::from_str(
                    "Had an error setting the .ROBLOSECURITY cookie in reqwest:\n",
                );
                r.append(err.as_str());
                r
            },
            ClientError::LoginFailed(err) => {
                let mut r = String::from_str("Logging into the Roblox API failed:\n");
                r.append(err.as_str());
                r
            },
            ClientError::ReqwestBuildError(err) => {
                let mut r = String::from_str("Had an error building the Reqwest client:\n");
                r.append(err.as_str());
                r
            },
        }
    }
}

impl RequestError {
    /// The rendered message of this error.
    pub open spec fn message_seq(&self) -> Seq<char> {
        match *self {
            RequestError::NotAuthenticated => "You need to be logged in to use this endpoint!"@,
            RequestError::ReauthenticationFailed(ref msg) => "Automatic reauthentication failed:\n"@
                + msg@,
            RequestError::ExpiredCookie => "The .ROBLOSECURITY cookie expired."@,
            RequestError::RequestError(ref url, ref err) => "Had an error sending the request to "@
                + url@ + ":\n"@ + err@,
            RequestError::ClientError(ref url, status, ref errors) => url@
                + " returned status code "@ + dec_seq(status as nat) + "\n"@
                + errors.message_seq(),
            RequestError::ServerError(status) => "Server returned status code "@ + dec_seq(
                status as nat,
            ),
        }
    }

    /// Renders this error as a human-readable message.
    pub fn to_string(&self) -> (r: String)
        ensures
            r@ == self.message_seq(),
    {
        match self {
            RequestError::NotAuthenticated => String::from_str(
                "You need to be logged in to use this endpoint!",
            ),
            RequestError::ReauthenticationFailed(msg) => {
                let mut r = String::from_str("Automatic reauthentication failed:\n");
                r.append(msg.as_str());
                r
            },
            RequestError::ExpiredCookie => String::from_str("The .ROBLOSECURITY cookie expired."),
            RequestError::RequestError(url, err) => {
                let mut r = String::from_str("Had an error sending the request to ");
                r.append(url.as_str());
                r.append(":\n");
                r.append(err.as_str());
                r
            },
            RequestError::ClientError(url, status, errors) => {
                let mut r = url.clone();
                r.append(" returned status code ");
                let status_text = u16_to_dec(*status);
                r.append(status_text.as_str());
                r.append("\n");
                let errors_text = errors.to_string();
                r.append(errors_text.as_str());
                r
            },
            RequestError::ServerError(status) => {
                let mut r = String::from_str("Server returned status code ");
                let status_text = u16_to_dec(*status);
                r.append(status_text.as_str());
                r
            },
        }
    }
}

/// Rendering law: the message rendered for a request error contains the
/// url the error speaks of, where the variant carries one, and the
/// discriminating status code, where the variant carries one.
pub proof fn lemma_request_error_message_discriminates(e: RequestError)
    ensures
        e matches RequestError::RequestError(url, _) ==> seq_contains(e.message_seq(), url@),
        e matches RequestError::ClientError(url, status, _) ==> seq_contains(
            e.message_seq(),
            url@,
        ) && seq_contains(e.message_seq(), dec_seq(status as nat)),
        e matches RequestError::ServerError(status) ==> seq_contains(
            e.message_seq(),
            dec_seq(status as nat),
        ),
{
    match e {
        RequestError::RequestError(url, err) => {
            let tail = ":\n"@ + err@;
            assert(e.message_seq() =~= "Had an error sending the request to "@ + url@ + tail);
            lemma_concat_contains_middle("Had an error sending the request to "@, url@, tail);
        },
        RequestError::ClientError(url, status, errors) => {
            let mid = " returned status code "@;
            let tail = mid + dec_seq(status as nat) + "\n"@ + errors.message_seq();
            assert(e.message_seq() =~= Seq::<char>::empty() + url@ + tail);
            lemma_concat_contains_middle(Seq::<char>::empty(), url@, tail);
            let tail2 = "\n"@ + errors.message_seq();
            assert(e.message_seq() =~= (url@ + mid) + dec_seq(status as nat) + tail2);
            lemma_concat_contains_middle(url@ + mid, dec_seq(status as nat), tail2);
        },
        RequestError::ServerError(status) => {
            assert(e.message_seq() =~= "Server returned status code "@ + dec_seq(status as nat)
                + Seq::<char>::empty());
            lemma_concat_contains_middle(
                "Server returned status code "@,
                dec_seq(status as nat),
                Seq::<char>::empty(),
            );
        },
        _ => {},
    }
}

/// Rendering law: each line rendered for a platform-reported error list
/// contains the decimal code of the pair it describes, and so does the
/// rendered list as a whole.
pub proof fn lemma_api_errors_message_discriminates(errors: RobloxApiErrors, i: int)
    requires
        0 <= i < errors.errors@.len(),
    ensures
        seq_contains(errors.message_seq(), int_dec_seq(errors.errors@[i].code as int)),
    decreases errors.errors@.len(),
{
    let s = errors.errors@;
    let line = s[i].message_seq();
    let code = int_dec_seq(s[i].code as int);
    assert(line =~= "Error code "@ + code + (": \""@ + s[i].message@ + "\""@));
    lemma_concat_contains_middle("Error code "@, code, ": \""@ + s[i].message@ + "\""@);
    lemma_lines_contain_line(s, i);
    lemma_concat_contains_middle("Roblox API Errors:\n"@, api_error_lines(s), Seq::<char>::empty());
    assert("Roblox API Errors:\n"@ + api_error_lines(s) + Seq::<char>::empty()
        =~= errors.message_seq());
    lemma_contains_trans(errors.message_seq(), api_error_lines(s), line);
    lemma_contains_trans(errors.message_seq(), line, code);
}

/// The rendered lines for a sequence contain each element's rendered line.
proof fn lemma_lines_contain_line(s: Seq<RobloxApiError>, i: int)
    requires
        0 <= i < s.len(),
    ensures
        seq_contains(api_error_lines(s), s[i].message_seq()),
    decreases s.len(),
{
    if i == s.len() - 1 {
        let a = api_error_lines(s.drop_last()) + " - "@;
        assert(api_error_lines(s) =~= a + s.last().message_seq() + "\n"@);
        lemma_concat_contains_middle(a, s.last().message_seq(), "\n"@);
    } else {
        lemma_lines_contain_line(s.drop_last(), i);
        assert(s.drop_last()[i] == s[i]);
        let tail = " - "@ + s.last().message_seq() + "\n"@;
        assert(api_error_lines(s) =~= Seq::<char>::empty() + api_error_lines(s.drop_last())
            + tail);
        lemma_contains_extend(
            Seq::<char>::empty(),
            api_error_lines(s.drop_last()),
            tail,
            s[i].message_seq(),
        );
    }
}

} // verus!
