//! What comes back from the mesh.

use vstd::prelude::*;

verus! {

/// The status line and body of an answered request.
#[derive(Debug)]
pub struct FetchResponse {
    /// The numeric status code.
    pub status: u16,
    pub content: String,
}

impl FetchResponse {
    pub fn from(status: u16, content: String) -> (r: Self)
        ensures
            r.status == status,
            r.content == content,
    {
        FetchResponse { status, content }
    }
}

/// The answer to a ping.
#[derive(Debug)]
pub struct PingResponse {
    /// The numeric status code.
    pub status: u16,
    pub content: Option<String>,
}

impl PingResponse {
    pub fn from(status: u16, content: String) -> (r: Self)
        ensures
            r.status == status,
            r.content == Some(content),
    {
        PingResponse { status, content: Some(content) }
    }
}

impl From<FetchResponse> for PingResponse {
    fn from(value: FetchResponse) -> (r: Self) {
        PingResponse::from(value.status, value.content)
    }
}

impl vstd::std_specs::convert::FromSpecImpl<FetchResponse> for PingResponse {
    open spec fn obeys_from_spec() -> bool {
        true
    }

    open spec fn from_spec(value: FetchResponse) -> Self {
        PingResponse { status: value.status, content: Some(value.content) }
    }
}

/// A bearer credential and the time at which it lapses. The expiry is
/// informational: a token is replaced when a service rejects it, never on a
/// timer.
#[derive(Debug)]
pub struct TokenStruct {
    pub token: String,
    pub expiry: u64,
}

/// The mathematical value of a [`TokenStruct`].
pub ghost struct TokenView {
    pub token: Seq<char>,
    pub expiry: u64,
}

impl View for TokenStruct {
    type V = TokenView;

    open spec fn view(&self) -> TokenView {
        TokenView { token: self.token@, expiry: self.expiry }
    }
}

impl TokenStruct {
    pub fn from(token: String, expiry: u64) -> (t: Self)
        ensures
            t.token == token,
            t.expiry == expiry,
    {
        TokenStruct { token, expiry }
    }
}

impl Clone for TokenStruct {
    fn clone(&self) -> (t: Self)
        ensures
            t == *self,
    {
        TokenStruct { token: self.token.clone(), expiry: self.expiry }
    }
}

} // verus!
