//! Token acquisition, seen from both ends: the request that asks a service
//! for a token, and the meaning of whatever comes back.

use crate::error::FetchError;
use crate::service::headers::{header_fields, no_fields, no_headers};
use crate::service::request::{FetchOpts, HttpRequestMethod};
use crate::service::response::TokenStruct;
use crate::text::{decimal, decimal_string};
use vstd::prelude::*;
use vstd::string::StringExecFns;

verus! {

/// The request that acquires a token: a `POST` to `url` with basic
/// authentication.
#[derive(Debug)]
pub struct TokenRequest {
    pub url: String,
    pub username: String,
    pub password: String,
}

/// What was found in the body of a successful token reply.
#[derive(Debug)]
pub enum TokenBody {
    /// The body could not be read.
    Missing,
    /// The body was read but does not hold a token.
    Malformed,
    /// The body holds this token.
    Decoded(TokenStruct),
}

/// What became of a token request.
#[derive(Debug)]
pub enum TokenReply {
    /// The request could not be put together.
    NotBuilt,
    /// The request could not be delivered.
    NotSent,
    /// The service answered.
    Answered { status: u16, body: TokenBody },
}

/// The address at which the service at `service_url` issues tokens.
pub open spec fn token_url_text(service_url: Seq<char>) -> Seq<char> {
    service_url + "/token"@
}

/// The request that acquires a token from the service at `service_url`:
/// `POST <service_url>/token` with basic authentication.
pub fn get_new_token(service_url: &str, username: &String, password: &String) -> (r: TokenRequest)
    ensures
        r.url@ == token_url_text(service_url@),
        r.username == *username,
        r.password == *password,
{
    let mut url = String::from_str(service_url);
    url.append("/token");
    TokenRequest { url, username: username.clone(), password: password.clone() }
}

/// The message for each way in which a token body can fail.
pub open spec fn body_error_text(body: TokenBody) -> Seq<char> {
    match body {
        TokenBody::Missing => "No response body."@,
        _ => "Couldn't decode response into token"@,
    }
}

/// The token held by a successful reply, or the error for `token_url`.
pub fn try_decode_token(body: TokenBody, token_url: String) -> (r: Result<TokenStruct, FetchError>)
    ensures
        match r {
            Ok(t) => body == TokenBody::Decoded(t),
            Err(e) => !(body is Decoded) && e.message@ == body_error_text(body) && e.url
                == token_url,
        },
{
    match body {
        TokenBody::Decoded(token) => Ok(token),
        TokenBody::Malformed => Err(
            FetchError {
                message: String::from_str("Couldn't decode response into token"),
                url: token_url,
            },
        ),
        TokenBody::Missing => Err(
            FetchError { message: String::from_str("No response body."), url: token_url },
        ),
    }
}

/// The message for a token request that was answered with a status other
/// than 200: 401, 500 and 404 have messages of their own, every other status
/// is reported by its number.
pub open spec fn status_error_text(status: u16) -> Seq<char> {
    if status == 401 {
        "Error fetching new token: 401 Unauthorised."@
    } else if status == 500 {
        "Error fetching new token - 500 Server error."@
    } else if status == 404 {
        "Error fetching new token: 404 Not found."@
    } else {
        "Error fetching new token: "@ + decimal(status as nat)
    }
}

/// The message for a token request that did not yield a token.
pub open spec fn token_error_text(reply: TokenReply) -> Seq<char> {
    match reply {
        TokenReply::NotBuilt => "Couldn't build a request to send for a token."@,
        TokenReply::NotSent => "Couldn't build token request."@,
        TokenReply::Answered { status, body } => if status == 200 {
            body_error_text(body)
        } else {
            status_error_text(status)
        },
    }
}

/// True when the reply carries a token: the service answered 200 with a body
/// that holds one.
pub open spec fn yields_token(reply: TokenReply) -> bool {
    reply matches TokenReply::Answered { status, body } && status == 200 && body is Decoded
}

/// The meaning of a token reply: the token, exactly when the service
/// answered 200 with one; otherwise the error for `token_url` that names
/// what went wrong.
pub fn token_outcome(reply: TokenReply, token_url: String) -> (r: Result<TokenStruct, FetchError>)
    ensures
        match r {
            Ok(t) => yields_token(reply) && reply->body == TokenBody::Decoded(t),
            Err(e) => !yields_token(reply) && e.message@ == token_error_text(reply) && e.url
                == token_url,
        },
{
    match reply {
        TokenReply::NotBuilt => Err(
            FetchError {
                message: String::from_str("Couldn't build a request to send for a token."),
                url: token_url,
            },
        ),
        TokenReply::NotSent => Err(
            FetchError { message: String::from_str("Couldn't build token request."), url: token_url },
        ),
        TokenReply::Answered { status, body } => {
            if status == 200 {
                try_decode_token(body, token_url)
            } else if status == 401 {
                Err(
                    FetchError {
                        message: String::from_str("Error fetching new token: 401 Unauthorised."),
                        url: token_url,
                    },
                )
            } else if status == 500 {
                Err(
                    FetchError {
                        message: String::from_str("Error fetching new token - 500 Server error."),
                        url: token_url,
                    },
                )
            } else if status == 404 {
                Err(
                    FetchError {
                        message: String::from_str("Error fetching new token: 404 Not found."),
                        url: token_url,
                    },
                )
            } else {
                let mut message = String::from_str("Error fetching new token: ");
                let number = decimal_string(status as u64);
                message.append(number.as_str());
                Err(FetchError { message, url: token_url })
            }
        },
    }
}

/// True exactly when the request can be repeated without harm: it is a
/// `GET`, carries no header and has no body.
pub fn is_idempotent(opts: &FetchOpts) -> (b: bool)
    ensures
        b == (opts.method == HttpRequestMethod::GET && header_fields(opts.headers) == no_fields()
            && opts.body is None),
{
    opts.method == HttpRequestMethod::GET && no_headers(&opts.headers) && opts.body.is_none()
}

} // verus!
